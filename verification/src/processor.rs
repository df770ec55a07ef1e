//! The processor: what the program decides. A call is decoded and routed to
//! its handler; the handler checks the accounts it is handed and answers with
//! the next request for the token ledger. The host sends the request and
//! comes back with the reply, until the handler answers that the call is done.
//!
//! A handler asks the runtime three things: whether a storage is rent-exempt,
//! what an asset account holds, and which address the program's derived
//! authority is. `Processor::open` and `Processor::settle` take the answers
//! as arguments and decide; `Processor::process_init_escrow` and
//! `Processor::process_exchange` ask and hand the answers on.

use vstd::prelude::*;
use crate::account::{views, Account, AccountView};
use crate::address::{lemma_address_by_bytes, Address};
use crate::authority;
use crate::authority::{authority_label, derived_authority};
use crate::error::{EscrowError, Failure};
use crate::instruction::{decode, EscrowInstruction};
use crate::rent;
use crate::rent::exemption;
use crate::state::{open_record_of, record_bytes, record_of, Escrow};
use crate::token;
use crate::token::{
    close_account_request, request_or_failure, set_owner_request, token_balance,
    token_program_bytes, transfer_request, Instruction, InstructionView,
};

verus! {

/// The seeds by which the program speaks for its derived authority.
#[derive(Clone, Debug, PartialEq, Eq)]
pub struct Seeds {
    pub label: Vec<u8>,
    pub bump: u8,
}

pub struct SeedsView {
    pub label: Seq<u8>,
    pub bump: u8,
}

impl View for Seeds {
    type V = SeedsView;

    open spec fn view(&self) -> SeedsView {
        SeedsView { label: self.label@, bump: self.bump }
    }
}

/// One request for the token ledger, as the host is to send it.
#[derive(Clone, Debug, PartialEq, Eq)]
pub struct Invocation {
    pub instruction: Instruction,
    /// The positions, in the account list of the call, of the accounts that
    /// go with the request, in their order.
    pub accounts: Vec<usize>,
    /// With seeds the request is signed by the derived authority; without,
    /// it goes with the signatures of the call.
    pub seeds: Option<Seeds>,
}

pub struct InvocationView {
    pub instruction: InstructionView,
    pub accounts: Seq<usize>,
    pub seeds: Option<SeedsView>,
}

impl View for Invocation {
    type V = InvocationView;

    open spec fn view(&self) -> InvocationView {
        InvocationView {
            instruction: self.instruction@,
            accounts: self.accounts@,
            seeds: match self.seeds {
                Some(seeds) => Some(seeds@),
                None => None,
            },
        }
    }
}

/// Which request of a call is with the ledger, and what the handler has to
/// remember until the reply. A stage is made by the handler that asks for
/// the request; the host hands it back unchanged, with the reply and with
/// the accounts of the same call.
#[derive(Clone, Copy, Debug, PartialEq, Eq)]
pub enum Stage {
    /// Opening: custody of the deposit is being handed to the derived authority.
    Delegating,
    /// Settling: the taker is paying the initializer. `amount` is what the
    /// deposit held when the terms were checked.
    PayingInitializer { authority: Address, bump: u8, amount: u64 },
    /// Settling: the deposit is being released to the taker.
    ReleasingDeposit { authority: Address, bump: u8 },
    /// Settling: the emptied deposit account is being closed.
    ClosingDeposit,
}

/// What the host is to do next.
#[derive(Clone, Debug, PartialEq, Eq)]
pub enum Step {
    /// Send `call` to the ledger, then resume at `then` with its reply.
    Invoke { call: Invocation, then: Stage },
    /// Nothing: the call is complete.
    Done,
}

pub enum StepView {
    Invoke { call: InvocationView, then: Stage },
    Done,
}

impl View for Step {
    type V = StepView;

    open spec fn view(&self) -> StepView {
        match self {
            Step::Invoke { call, then } => StepView::Invoke { call: call@, then: *then },
            Step::Done => StepView::Done,
        }
    }
}

/// A request that goes with the signatures of the call.
pub open spec fn plain_call(instruction: InstructionView, accounts: Seq<usize>) -> InvocationView {
    InvocationView { instruction, accounts, seeds: None }
}

/// A request that the derived authority signs.
pub open spec fn signed_call(instruction: InstructionView, accounts: Seq<usize>, bump: u8) -> InvocationView {
    InvocationView { instruction, accounts, seeds: Some(SeedsView { label: authority_label(), bump }) }
}

/// The record that opening an escrow on `accounts` for `amount` writes.
pub open spec fn new_record(accounts: Seq<AccountView>, amount: u64) -> Escrow {
    Escrow {
        is_initialized: true,
        initializer_pubkey: accounts[0].key,
        temp_token_account_pubkey: accounts[1].key,
        initializer_token_to_receive_account_pubkey: accounts[2].key,
        expected_amount: amount,
    }
}

/// The checks of an opening, in their order: the initializer signed; the
/// account that is to receive is an asset account of the token ledger; the
/// storage of the record is rent-exempt, by the answer `exempt` of the
/// runtime, and holds no record yet.
pub open spec fn opening_checks(accounts: Seq<AccountView>, exempt: Result<bool, Failure>) -> Result<
    (),
    Failure,
> {
    if accounts.len() < 1 {
        Err(Failure::NotEnoughAccountKeys)
    } else if !accounts[0].is_signer {
        Err(Failure::MissingRequiredSignature)
    } else if accounts.len() < 3 {
        Err(Failure::NotEnoughAccountKeys)
    } else if accounts[2].owner@ != token_program_bytes() {
        Err(Failure::IncorrectProgramId)
    } else if accounts.len() < 5 {
        Err(Failure::NotEnoughAccountKeys)
    } else {
        match exempt {
            Err(failure) => Err(failure),
            Ok(false) => Err(Failure::Escrow(EscrowError::NotRentExempt)),
            Ok(true) => match record_of(accounts[3].data) {
                Err(failure) => Err(failure),
                Ok(record) => if record.is_initialized {
                    Err(Failure::AccountAlreadyInitialized)
                } else {
                    Ok(())
                },
            },
        }
    }
}

/// Opening an escrow. The accounts, by position: 0 the initializer, 1 the
/// account with the deposit, 2 the account that is to receive, 3 the storage
/// of the record, 4 the rent account, 5 the token program. `exempt` is the
/// runtime's answer on the storage, `authority` the derived authority with
/// its bump.
///
/// Where the checks pass, the record is written to the storage and the
/// ledger is asked to make the derived authority the owner of the deposit
/// account. Any failure leaves the accounts as they were.
pub open spec fn opening(
    accounts: Seq<AccountView>,
    amount: u64,
    exempt: Result<bool, Failure>,
    authority: Option<(Address, u8)>,
) -> Result<(Seq<AccountView>, StepView), Failure> {
    match opening_checks(accounts, exempt) {
        Err(failure) => Err(failure),
        Ok(()) => match authority {
            None => Err(Failure::InvalidSeeds),
            Some((authority, _)) => if accounts.len() < 6 {
                Err(Failure::NotEnoughAccountKeys)
            } else {
                match request_or_failure(
                    set_owner_request(
                        accounts[5].key,
                        accounts[1].key,
                        authority,
                        accounts[0].key,
                        accounts[0].key,
                    ),
                ) {
                    Err(failure) => Err(failure),
                    Ok(instruction) => Ok(
                        (
                            accounts.update(
                                3,
                                AccountView { data: record_bytes(new_record(accounts, amount)), ..accounts[3] },
                            ),
                            StepView::Invoke {
                                call: plain_call(instruction, seq![1usize, 0, 5]),
                                then: Stage::Delegating,
                            },
                        ),
                    ),
                }
            },
        },
    }
}

/// The runtime's answer on the storage of the record, by the rent account
/// that an opening is handed. Where either is missing nothing is asked.
pub open spec fn storage_exemption(accounts: Seq<AccountView>) -> Result<bool, Failure> {
    if accounts.len() < 5 {
        Err(Failure::NotEnoughAccountKeys)
    } else {
        exemption(accounts[4], accounts[3].lamports, accounts[3].data.len())
    }
}

/// The handler of an opening: `opening`, on the answers of the runtime.
pub open spec fn init_escrow(program_id: Address, accounts: Seq<AccountView>, amount: u64) -> Result<
    (Seq<AccountView>, StepView),
    Failure,
> {
    opening(accounts, amount, storage_exemption(accounts), derived_authority(program_id))
}

/// What the checks of a settlement establish.
#[derive(Clone, Copy, Debug, PartialEq, Eq)]
pub struct Terms {
    /// The derived authority, which holds the deposit.
    pub authority: Address,
    pub bump: u8,
    /// What the deposit holds.
    pub balance: u64,
    /// The record of the escrow.
    pub record: Escrow,
}

/// The checks of a settlement, in their order: the taker signed; the deposit
/// holds, by the answer `balance` of the ledger, exactly what the taker
/// expects; the authority is derived; the record is that of an open escrow,
/// and its deposit account, its initializer and the account that is to
/// receive are the ones that the call names.
pub open spec fn settlement_terms(
    accounts: Seq<AccountView>,
    amount: u64,
    balance: Result<u64, Failure>,
    authority: Option<(Address, u8)>,
) -> Result<Terms, Failure> {
    if accounts.len() < 1 {
        Err(Failure::NotEnoughAccountKeys)
    } else if !accounts[0].is_signer {
        Err(Failure::MissingRequiredSignature)
    } else if accounts.len() < 4 {
        Err(Failure::NotEnoughAccountKeys)
    } else {
        match balance {
            Err(failure) => Err(failure),
            Ok(balance) => if amount != balance {
                Err(Failure::Escrow(EscrowError::ExpectedAmountMismatch))
            } else {
                match authority {
                    None => Err(Failure::InvalidSeeds),
                    Some((authority, bump)) => if accounts.len() < 7 {
                        Err(Failure::NotEnoughAccountKeys)
                    } else {
                        match open_record_of(accounts[6].data) {
                            Err(failure) => Err(failure),
                            Ok(record) => if record.temp_token_account_pubkey != accounts[3].key
                                || record.initializer_pubkey != accounts[4].key
                                || record.initializer_token_to_receive_account_pubkey != accounts[5].key {
                                Err(Failure::InvalidAccountData)
                            } else {
                                Ok(Terms { authority, bump, balance, record })
                            },
                        }
                    },
                }
            },
        }
    }
}

/// Settling an escrow, first part. The accounts, by position: 0 the taker,
/// 1 the account the taker pays from, 2 the account the taker receives into,
/// 3 the account with the deposit, 4 the initializer, 5 the account the
/// initializer receives into, 6 the storage of the record, 7 the token
/// program, 8 the account of the derived authority. `balance` is the ledger's answer on the
/// deposit, `authority` the derived authority with its bump.
///
/// Where the checks pass and all nine accounts are there, the ledger is
/// asked to move what the record asks for from the taker to the initializer.
/// The accounts stay as they are.
pub open spec fn settlement(
    accounts: Seq<AccountView>,
    amount: u64,
    balance: Result<u64, Failure>,
    authority: Option<(Address, u8)>,
) -> Result<(Seq<AccountView>, StepView), Failure> {
    match settlement_terms(accounts, amount, balance, authority) {
        Err(failure) => Err(failure),
        Ok(terms) => if accounts.len() < 9 {
            Err(Failure::NotEnoughAccountKeys)
        } else {
            match request_or_failure(
                transfer_request(
                    accounts[7].key,
                    accounts[1].key,
                    accounts[5].key,
                    accounts[0].key,
                    accounts[0].key,
                    terms.record.expected_amount,
                ),
            ) {
                Err(failure) => Err(failure),
                Ok(instruction) => Ok(
                    (
                        accounts,
                        StepView::Invoke {
                            call: plain_call(instruction, seq![1usize, 5, 0, 7]),
                            then: Stage::PayingInitializer {
                                authority: terms.authority,
                                bump: terms.bump,
                                amount: terms.balance,
                            },
                        },
                    ),
                ),
            }
        },
    }
}

/// The ledger's answer on the deposit account that a settlement is handed.
/// Where the account is missing nothing is asked.
pub open spec fn deposit_balance(accounts: Seq<AccountView>) -> Result<u64, Failure> {
    if accounts.len() < 4 {
        Err(Failure::NotEnoughAccountKeys)
    } else {
        token_balance(accounts[3].data)
    }
}

/// The handler of a settlement: `settlement`, on the answers of the ledger
/// and of the runtime.
pub open spec fn exchange(program_id: Address, accounts: Seq<AccountView>, amount: u64) -> Result<
    (Seq<AccountView>, StepView),
    Failure,
> {
    settlement(accounts, amount, deposit_balance(accounts), derived_authority(program_id))
}

/// Settling, second part: the ledger is asked to move the whole deposit to
/// the taker, on the word of the derived authority.
pub open spec fn release_deposit(accounts: Seq<AccountView>, authority: Address, bump: u8, amount: u64) -> Result<
    (Seq<AccountView>, StepView),
    Failure,
> {
    if accounts.len() < 9 {
        Err(Failure::NotEnoughAccountKeys)
    } else {
        match request_or_failure(
            transfer_request(accounts[7].key, accounts[3].key, accounts[2].key, authority, authority, amount),
        ) {
            Err(failure) => Err(failure),
            Ok(instruction) => Ok(
                (
                    accounts,
                    StepView::Invoke {
                        call: signed_call(instruction, seq![3usize, 2, 8, 7], bump),
                        then: Stage::ReleasingDeposit { authority, bump },
                    },
                ),
            ),
        }
    }
}

/// Settling, third part: the ledger is asked to close the deposit account
/// and to hand its backing balance to the initializer, on the word of the
/// derived authority.
pub open spec fn close_deposit(accounts: Seq<AccountView>, authority: Address, bump: u8) -> Result<
    (Seq<AccountView>, StepView),
    Failure,
> {
    if accounts.len() < 9 {
        Err(Failure::NotEnoughAccountKeys)
    } else {
        match request_or_failure(
            close_account_request(accounts[7].key, accounts[3].key, accounts[4].key, authority, authority),
        ) {
            Err(failure) => Err(failure),
            Ok(instruction) => Ok(
                (
                    accounts,
                    StepView::Invoke {
                        call: signed_call(instruction, seq![3usize, 4, 8, 7], bump),
                        then: Stage::ClosingDeposit,
                    },
                ),
            ),
        }
    }
}

/// Storage of `len` bytes, all of them zero.
pub open spec fn zeroed(len: nat) -> Seq<u8> {
    Seq::new(len, |i: int| 0u8)
}

/// Settling, last part: the backing balance of the record's storage goes to
/// the initializer, and the storage is zeroed over its whole length, so that
/// it holds no open escrow any more. The sum must fit in 64 bits.
pub open spec fn close_escrow(accounts: Seq<AccountView>) -> Result<(Seq<AccountView>, StepView), Failure> {
    if accounts.len() < 7 {
        Err(Failure::NotEnoughAccountKeys)
    } else if accounts[4].lamports + accounts[6].lamports > u64::MAX {
        Err(Failure::Escrow(EscrowError::AmountOverflow))
    } else {
        Ok(
            (
                accounts.update(
                    4,
                    AccountView {
                        lamports: (accounts[4].lamports + accounts[6].lamports) as u64,
                        ..accounts[4]
                    },
                ).update(
                    6,
                    AccountView { lamports: 0, data: zeroed(accounts[6].data.len()), ..accounts[6] },
                ),
                StepView::Done,
            ),
        )
    }
}

/// What follows the reply to the request of `stage`. A failure of the ledger
/// is the failure of the call.
pub open spec fn resume(accounts: Seq<AccountView>, stage: Stage, reply: Result<(), Failure>) -> Result<
    (Seq<AccountView>, StepView),
    Failure,
> {
    match reply {
        Err(failure) => Err(failure),
        Ok(()) => match stage {
            Stage::Delegating => Ok((accounts, StepView::Done)),
            Stage::PayingInitializer { authority, bump, amount } => release_deposit(
                accounts,
                authority,
                bump,
                amount,
            ),
            Stage::ReleasingDeposit { authority, bump } => close_deposit(accounts, authority, bump),
            Stage::ClosingDeposit => close_escrow(accounts),
        },
    }
}

/// A call of the program: the payload names the operation, and the
/// operation's handler answers.
pub open spec fn process(program_id: Address, accounts: Seq<AccountView>, instruction_data: Seq<u8>) -> Result<
    (Seq<AccountView>, StepView),
    Failure,
> {
    match decode(instruction_data) {
        Err(failure) => Err(failure),
        Ok(EscrowInstruction::InitEscrow { amount }) => init_escrow(program_id, accounts, amount),
        Ok(EscrowInstruction::Exchange { amount }) => exchange(program_id, accounts, amount),
    }
}

/// What a handler returned and what it left of the accounts, by their views.
pub open spec fn outcome(r: Result<Step, Failure>, accounts: Seq<Account>) -> Result<
    (Seq<AccountView>, StepView),
    Failure,
> {
    match r {
        Ok(step) => Ok((views(accounts), step@)),
        Err(failure) => Err(failure),
    }
}

/// The processor of the escrow program.
pub struct Processor;

impl Processor {
    /// Handles a call: decodes the payload and lets the handler of the
    /// operation answer.
    pub fn process(program_id: &Address, accounts: &mut Vec<Account>, instruction_data: &[u8]) -> (r: Result<
        Step,
        Failure,
    >)
        ensures
            outcome(r, final(accounts)@) == process(*program_id, views(old(accounts)@), instruction_data@),
            r is Err ==> final(accounts)@ == old(accounts)@,
            final(accounts).len() == old(accounts).len(),
    {
        match EscrowInstruction::unpack(instruction_data) {
            Err(failure) => Err(failure),
            Ok(EscrowInstruction::InitEscrow { amount }) => Self::process_init_escrow(
                accounts,
                amount,
                program_id,
            ),
            Ok(EscrowInstruction::Exchange { amount }) => Self::process_exchange(accounts, amount, program_id),
        }
    }

    /// The handler of an opening: asks the runtime whether the storage of the
    /// record is rent-exempt and which address the derived authority is, and
    /// opens the escrow on the answers.
    pub fn process_init_escrow(accounts: &mut Vec<Account>, amount: u64, program_id: &Address) -> (r: Result<
        Step,
        Failure,
    >)
        ensures
            outcome(r, final(accounts)@) == init_escrow(*program_id, views(old(accounts)@), amount),
            r is Err ==> final(accounts)@ == old(accounts)@,
            final(accounts).len() == old(accounts).len(),
    {
        let exempt = if accounts.len() < 5 {
            Err(Failure::NotEnoughAccountKeys)
        } else {
            rent::is_exempt(&accounts[4], accounts[3].lamports, accounts[3].data.len())
        };
        let authority = authority::derive(program_id);
        Self::open(accounts, amount, exempt, authority)
    }

    /// Runs the checks of an opening.
    fn check_opening(accounts: &Vec<Account>, exempt: Result<bool, Failure>) -> (r: Result<(), Failure>)
        ensures
            r == opening_checks(views(accounts@), exempt),
    {
        if accounts.len() < 1 {
            return Err(Failure::NotEnoughAccountKeys);
        }
        if !accounts[0].is_signer {
            return Err(Failure::MissingRequiredSignature);
        }
        if accounts.len() < 3 {
            return Err(Failure::NotEnoughAccountKeys);
        }
        let ledger = token::id();
        if !(accounts[2].owner == ledger) {
            return Err(Failure::IncorrectProgramId);
        }
        if accounts.len() < 5 {
            return Err(Failure::NotEnoughAccountKeys);
        }
        match exempt {
            Err(failure) => {
                return Err(failure);
            },
            Ok(false) => {
                return Err(Failure::Escrow(EscrowError::NotRentExempt));
            },
            Ok(true) => {},
        }
        let record = match Escrow::unpack_unchecked(accounts[3].data.as_slice()) {
            Err(failure) => {
                return Err(failure);
            },
            Ok(record) => record,
        };
        if record.is_initialized() {
            return Err(Failure::AccountAlreadyInitialized);
        }
        Ok(())
    }

    /// Opens an escrow on the answers of the runtime: checks the accounts,
    /// writes the record, and asks the ledger to hand the deposit account
    /// over to the derived authority.
    pub fn open(
        accounts: &mut Vec<Account>,
        amount: u64,
        exempt: Result<bool, Failure>,
        authority: Option<(Address, u8)>,
    ) -> (r: Result<Step, Failure>)
        ensures
            outcome(r, final(accounts)@) == opening(views(old(accounts)@), amount, exempt, authority),
            r is Err ==> final(accounts)@ == old(accounts)@,
            final(accounts).len() == old(accounts).len(),
    {
        let ghost before = views(accounts@);
        match Self::check_opening(accounts, exempt) {
            Err(failure) => {
                return Err(failure);
            },
            Ok(()) => {},
        }
        let authority = match authority {
            None => {
                return Err(Failure::InvalidSeeds);
            },
            Some((authority, _)) => authority,
        };
        if accounts.len() < 6 {
            return Err(Failure::NotEnoughAccountKeys);
        }
        let initializer = accounts[0].key;
        let instruction = match token::set_owner(&accounts[5].key, &accounts[1].key, &authority, &initializer) {
            Err(failure) => {
                return Err(failure);
            },
            Ok(instruction) => instruction,
        };
        let record = Escrow {
            is_initialized: true,
            initializer_pubkey: initializer,
            temp_token_account_pubkey: accounts[1].key,
            initializer_token_to_receive_account_pubkey: accounts[2].key,
            expected_amount: amount,
        };
        assert(record == new_record(before, amount));
        match Escrow::pack(record, &mut accounts[3].data) {
            Err(failure) => {
                return Err(failure);
            },
            Ok(()) => {},
        }
        let step = Step::Invoke {
            call: Invocation { instruction, accounts: vec![1usize, 0, 5], seeds: None },
            then: Stage::Delegating,
        };
        assert(views(accounts@) =~= before.update(
            3,
            AccountView { data: record_bytes(new_record(before, amount)), ..before[3] },
        ));
        Ok(step)
    }

    /// The handler of a settlement: asks the ledger what the deposit holds
    /// and the runtime which address the derived authority is, and starts the
    /// settlement on the answers.
    pub fn process_exchange(
        accounts: &mut Vec<Account>,
        amount_expected_by_taker: u64,
        program_id: &Address,
    ) -> (r: Result<Step, Failure>)
        ensures
            outcome(r, final(accounts)@) == exchange(
                *program_id,
                views(old(accounts)@),
                amount_expected_by_taker,
            ),
            final(accounts)@ == old(accounts)@,
    {
        let balance = if accounts.len() < 4 {
            Err(Failure::NotEnoughAccountKeys)
        } else {
            token::balance(accounts[3].data.as_slice())
        };
        let authority = authority::derive(program_id);
        Self::settle(accounts, amount_expected_by_taker, balance, authority)
    }

    /// Runs the checks of a settlement.
    fn check_terms(
        accounts: &Vec<Account>,
        amount: u64,
        balance: Result<u64, Failure>,
        authority: Option<(Address, u8)>,
    ) -> (r: Result<Terms, Failure>)
        ensures
            r == settlement_terms(views(accounts@), amount, balance, authority),
    {
        if accounts.len() < 1 {
            return Err(Failure::NotEnoughAccountKeys);
        }
        if !accounts[0].is_signer {
            return Err(Failure::MissingRequiredSignature);
        }
        if accounts.len() < 4 {
            return Err(Failure::NotEnoughAccountKeys);
        }
        let balance = match balance {
            Err(failure) => {
                return Err(failure);
            },
            Ok(balance) => balance,
        };
        if amount != balance {
            return Err(Failure::Escrow(EscrowError::ExpectedAmountMismatch));
        }
        let (authority, bump) = match authority {
            None => {
                return Err(Failure::InvalidSeeds);
            },
            Some(found) => found,
        };
        if accounts.len() < 7 {
            return Err(Failure::NotEnoughAccountKeys);
        }
        let record = match Escrow::unpack(accounts[6].data.as_slice()) {
            Err(failure) => {
                return Err(failure);
            },
            Ok(record) => record,
        };
        proof {
            lemma_address_by_bytes(record.temp_token_account_pubkey, accounts[3].key);
            lemma_address_by_bytes(record.initializer_pubkey, accounts[4].key);
            lemma_address_by_bytes(record.initializer_token_to_receive_account_pubkey, accounts[5].key);
        }
        if !(record.temp_token_account_pubkey == accounts[3].key) {
            return Err(Failure::InvalidAccountData);
        }
        if !(record.initializer_pubkey == accounts[4].key) {
            return Err(Failure::InvalidAccountData);
        }
        if !(record.initializer_token_to_receive_account_pubkey == accounts[5].key) {
            return Err(Failure::InvalidAccountData);
        }
        Ok(Terms { authority, bump, balance, record })
    }

    /// Starts a settlement on the answers of the ledger and of the runtime:
    /// checks the terms and that all nine accounts are there, and asks the
    /// ledger to pay the initializer what the record asks for.
    pub fn settle(
        accounts: &Vec<Account>,
        amount_expected_by_taker: u64,
        balance: Result<u64, Failure>,
        authority: Option<(Address, u8)>,
    ) -> (r: Result<Step, Failure>)
        ensures
            outcome(r, accounts@) == settlement(views(accounts@), amount_expected_by_taker, balance, authority),
    {
        let terms = match Self::check_terms(accounts, amount_expected_by_taker, balance, authority) {
            Err(failure) => {
                return Err(failure);
            },
            Ok(terms) => terms,
        };
        if accounts.len() < 9 {
            return Err(Failure::NotEnoughAccountKeys);
        }
        let taker = accounts[0].key;
        let instruction = match token::transfer(
            &accounts[7].key,
            &accounts[1].key,
            &accounts[5].key,
            &taker,
            terms.record.expected_amount,
        ) {
            Err(failure) => {
                return Err(failure);
            },
            Ok(instruction) => instruction,
        };
        Ok(
            Step::Invoke {
                call: Invocation { instruction, accounts: vec![1usize, 5, 0, 7], seeds: None },
                then: Stage::PayingInitializer {
                    authority: terms.authority,
                    bump: terms.bump,
                    amount: terms.balance,
                },
            },
        )
    }

    /// Settles, second part: asks the ledger to release the deposit to the taker.
    fn release_deposit(accounts: &Vec<Account>, authority: Address, bump: u8, amount: u64) -> (r: Result<
        Step,
        Failure,
    >)
        ensures
            outcome(r, accounts@) == release_deposit(views(accounts@), authority, bump, amount),
    {
        if accounts.len() < 9 {
            return Err(Failure::NotEnoughAccountKeys);
        }
        let instruction = match token::transfer(
            &accounts[7].key,
            &accounts[3].key,
            &accounts[2].key,
            &authority,
            amount,
        ) {
            Err(failure) => {
                return Err(failure);
            },
            Ok(instruction) => instruction,
        };
        Ok(
            Step::Invoke {
                call: Invocation {
                    instruction,
                    accounts: vec![3usize, 2, 8, 7],
                    seeds: Some(Seeds { label: authority::label(), bump }),
                },
                then: Stage::ReleasingDeposit { authority, bump },
            },
        )
    }

    /// Settles, third part: asks the ledger to close the deposit account.
    fn close_deposit(accounts: &Vec<Account>, authority: Address, bump: u8) -> (r: Result<Step, Failure>)
        ensures
            outcome(r, accounts@) == close_deposit(views(accounts@), authority, bump),
    {
        if accounts.len() < 9 {
            return Err(Failure::NotEnoughAccountKeys);
        }
        let instruction = match token::close_account(
            &accounts[7].key,
            &accounts[3].key,
            &accounts[4].key,
            &authority,
        ) {
            Err(failure) => {
                return Err(failure);
            },
            Ok(instruction) => instruction,
        };
        Ok(
            Step::Invoke {
                call: Invocation {
                    instruction,
                    accounts: vec![3usize, 4, 8, 7],
                    seeds: Some(Seeds { label: authority::label(), bump }),
                },
                then: Stage::ClosingDeposit,
            },
        )
    }

    /// Makes `len` zero bytes.
    fn zeros(len: usize) -> (out: Vec<u8>)
        ensures
            out@ == zeroed(len as nat),
    {
        let mut out: Vec<u8> = Vec::new();
        while out.len() < len
            invariant
                out.len() <= len,
                forall|i: int| 0 <= i < out.len() ==> out[i] == 0,
            decreases len - out.len(),
        {
            out.push(0);
        }
        assert(out@ =~= zeroed(len as nat));
        out
    }

    /// Settles, last part: hands the backing balance of the record's storage
    /// to the initializer and writes zeros over the storage.
    fn close_escrow(accounts: &mut Vec<Account>) -> (r: Result<Step, Failure>)
        ensures
            outcome(r, final(accounts)@) == close_escrow(views(old(accounts)@)),
            r is Err ==> final(accounts)@ == old(accounts)@,
            final(accounts).len() == old(accounts).len(),
    {
        let ghost before = views(accounts@);
        if accounts.len() < 7 {
            return Err(Failure::NotEnoughAccountKeys);
        }
        let sum = match accounts[4].lamports.checked_add(accounts[6].lamports) {
            None => {
                return Err(Failure::Escrow(EscrowError::AmountOverflow));
            },
            Some(sum) => sum,
        };
        let zeros = Self::zeros(accounts[6].data.len());
        accounts[4].lamports = sum;
        accounts[6].lamports = 0;
        accounts[6].data = zeros;
        assert(views(accounts@) =~= before.update(4, AccountView { lamports: sum, ..before[4] }).update(
            6,
            AccountView { lamports: 0, data: zeroed(before[6].data.len()), ..before[6] },
        ));
        Ok(Step::Done)
    }

    /// Goes on after the ledger has replied to the request of `stage`.
    pub fn resume(accounts: &mut Vec<Account>, stage: Stage, reply: Result<(), Failure>) -> (r: Result<
        Step,
        Failure,
    >)
        ensures
            outcome(r, final(accounts)@) == resume(views(old(accounts)@), stage, reply),
            r is Err ==> final(accounts)@ == old(accounts)@,
            final(accounts).len() == old(accounts).len(),
    {
        match reply {
            Err(failure) => {
                return Err(failure);
            },
            Ok(()) => {},
        }
        match stage {
            Stage::Delegating => Ok(Step::Done),
            Stage::PayingInitializer { authority, bump, amount } => Self::release_deposit(
                accounts,
                authority,
                bump,
                amount,
            ),
            Stage::ReleasingDeposit { authority, bump } => Self::close_deposit(accounts, authority, bump),
            Stage::ClosingDeposit => Self::close_escrow(accounts),
        }
    }
}

} // verus!
