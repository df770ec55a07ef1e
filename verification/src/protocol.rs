//! What the protocol guarantees: facts about whole calls, and about a
//! settlement from its first check to its last write.

use vstd::prelude::*;
use vstd::bytes::{lemma_auto_spec_u64_to_from_le_bytes, spec_u64_from_le_bytes};
use crate::account::AccountView;
use crate::address::Address;
use crate::authority::derived_authority;
use crate::error::{lemma_codes_name_canonical_failures, EscrowError, Failure};
use crate::processor::{
    close_escrow, exchange, init_escrow, new_record, opening, process, resume, settlement,
    settlement_terms, zeroed, InvocationView, Stage, StepView,
};
use crate::rent::exemption;
use crate::state::{lemma_record_round_trip, open_record_of, record_of, Escrow, ESCROW_LEN};
use crate::token::{token_balance, token_program_bytes};

verus! {

/// An opening that succeeds stores exactly the terms it was given: the record
/// in the storage is initialized and names the initializer, the deposit
/// account, the account that is to receive, and the amount asked for.
/// Nothing else changes.
pub proof fn lemma_init_stores_the_terms(
    accounts: Seq<AccountView>,
    amount: u64,
    exempt: Result<bool, Failure>,
    authority: Option<(Address, u8)>,
)
    requires
        opening(accounts, amount, exempt, authority) is Ok,
    ensures
        ({
            let after = opening(accounts, amount, exempt, authority)->Ok_0.0;
            &&& after.len() == accounts.len()
            &&& forall|i: int| 0 <= i < accounts.len() && i != 3 ==> after[i] == accounts[i]
            &&& after[3] == (AccountView { data: after[3].data, ..accounts[3] })
            &&& record_of(after[3].data) == Ok::<Escrow, Failure>(
                Escrow {
                    is_initialized: true,
                    initializer_pubkey: accounts[0].key,
                    temp_token_account_pubkey: accounts[1].key,
                    initializer_token_to_receive_account_pubkey: accounts[2].key,
                    expected_amount: amount,
                },
            )
        }),
{
    lemma_record_round_trip(new_record(accounts, amount));
}

/// A storage that an opening has written cannot be opened again: whatever
/// else a later opening is handed, on that storage it fails, and where it
/// gets as far as the record it fails with `AccountAlreadyInitialized`.
pub proof fn lemma_init_refuses_written_storage(
    accounts: Seq<AccountView>,
    amount: u64,
    exempt: Result<bool, Failure>,
    authority: Option<(Address, u8)>,
    later: Seq<AccountView>,
    later_amount: u64,
    later_exempt: Result<bool, Failure>,
    later_authority: Option<(Address, u8)>,
)
    requires
        opening(accounts, amount, exempt, authority) is Ok,
        later.len() > 3,
        later[3].data == opening(accounts, amount, exempt, authority)->Ok_0.0[3].data,
    ensures
        opening(later, later_amount, later_exempt, later_authority) is Err,
        later.len() >= 5 && later[0].is_signer && later[2].owner@ == token_program_bytes() && later_exempt
            == Ok::<bool, Failure>(true) ==> opening(later, later_amount, later_exempt, later_authority)
            == Err::<(Seq<AccountView>, StepView), Failure>(Failure::AccountAlreadyInitialized),
{
    lemma_record_round_trip(new_record(accounts, amount));
}

/// An opening whose receiving account does not belong to the token ledger
/// fails, and once the initializer has signed it fails with
/// `IncorrectProgramId`. (A handler that fails leaves the accounts as they
/// were: see `Processor::open`.)
pub proof fn lemma_init_refuses_foreign_receiver(
    accounts: Seq<AccountView>,
    amount: u64,
    exempt: Result<bool, Failure>,
    authority: Option<(Address, u8)>,
)
    requires
        accounts.len() >= 3,
        accounts[2].owner@ != token_program_bytes(),
    ensures
        opening(accounts, amount, exempt, authority) is Err,
        accounts[0].is_signer ==> opening(accounts, amount, exempt, authority) == Err::<
            (Seq<AccountView>, StepView),
            Failure,
        >(Failure::IncorrectProgramId),
{
}

/// An opening on a storage that is not rent-exempt fails with
/// `NotRentExempt`, once the checks before that one have passed.
pub proof fn lemma_init_requires_rent_exemption(
    accounts: Seq<AccountView>,
    amount: u64,
    authority: Option<(Address, u8)>,
)
    requires
        accounts.len() >= 5,
        accounts[0].is_signer,
        accounts[2].owner@ == token_program_bytes(),
    ensures
        opening(accounts, amount, Ok(false), authority) == Err::<(Seq<AccountView>, StepView), Failure>(
            Failure::Escrow(EscrowError::NotRentExempt),
        ),
{
}

/// A settlement whose taker expects another amount than the deposit holds
/// fails before any request is made, and where the taker has signed it fails
/// with `ExpectedAmountMismatch`, for every program.
pub proof fn lemma_exchange_refuses_other_amount(
    accounts: Seq<AccountView>,
    amount: u64,
    balance: u64,
    authority: Option<(Address, u8)>,
)
    requires
        accounts.len() >= 4,
        amount != balance,
    ensures
        settlement(accounts, amount, Ok(balance), authority) is Err,
        accounts[0].is_signer ==> settlement(accounts, amount, Ok(balance), authority) == Err::<
            (Seq<AccountView>, StepView),
            Failure,
        >(Failure::Escrow(EscrowError::ExpectedAmountMismatch)),
{
}

/// A settled escrow is closed for good. The storage, as the last part of a
/// settlement leaves it, reads back as a record that is not initialized, so
/// every later settlement on it fails, whatever it is handed besides.
pub proof fn lemma_exchange_refuses_closed_escrow(
    settled: Seq<AccountView>,
    later: Seq<AccountView>,
    later_amount: u64,
    later_balance: Result<u64, Failure>,
    later_authority: Option<(Address, u8)>,
)
    requires
        close_escrow(settled) is Ok,
        later.len() > 6 ==> later[6].data == close_escrow(settled)->Ok_0.0[6].data,
    ensures
        settlement(later, later_amount, later_balance, later_authority) is Err,
        settlement_terms(later, later_amount, later_balance, later_authority) is Err,
        later.len() > 6 && settled[6].data.len() == ESCROW_LEN ==> record_of(later[6].data) is Ok
            && !record_of(later[6].data)->Ok_0.is_initialized && open_record_of(later[6].data) == Err::<
            Escrow,
            Failure,
        >(Failure::UninitializedAccount),
{
}

/// A closed escrow is not opened again either. A settlement leaves the
/// storage without any backing balance, so an opening on it fails wherever
/// the runtime does not exempt a storage that nothing backs. (With a
/// balance paid in anew the zeroed storage can hold a new record.)
pub proof fn lemma_init_refuses_closed_storage(
    settled: Seq<AccountView>,
    later_program_id: Address,
    later: Seq<AccountView>,
    later_amount: u64,
)
    requires
        close_escrow(settled) is Ok,
        later.len() > 3 ==> later[3] == close_escrow(settled)->Ok_0.0[6],
        later.len() >= 5 ==> exemption(later[4], 0, later[3].data.len()) != Ok::<bool, Failure>(true),
    ensures
        init_escrow(later_program_id, later, later_amount) is Err,
{
}

/// The custodian is one: the authority to which an opening hands the
/// deposit is the authority on whose word a settlement releases it, for all
/// calls of one program.
pub proof fn lemma_custody_and_release_agree(
    program_id: Address,
    opening: Seq<AccountView>,
    asked: u64,
    settling: Seq<AccountView>,
    expected: u64,
)
    requires
        init_escrow(program_id, opening, asked) is Ok,
        exchange(program_id, settling, expected) is Ok,
    ensures
        init_escrow(program_id, opening, asked)->Ok_0.1 matches StepView::Invoke { call: delegate, .. }
            && exchange(program_id, settling, expected)->Ok_0.1 matches StepView::Invoke {
            then: Stage::PayingInitializer { authority, bump, .. },
            ..
        } && delegate.instruction.data == seq![6u8, 2u8, 1u8] + authority@ && derived_authority(program_id)
            == Some((authority, bump)),
{
}

/// The failures of a call are canonical: a handler answers with a failure of
/// its own, with the failure that a code of the runtime or of the ledger
/// names, or with the failure of the reply it was handed.
pub proof fn lemma_failures_are_canonical(
    program_id: Address,
    accounts: Seq<AccountView>,
    instruction_data: Seq<u8>,
    stage: Stage,
    reply: Result<(), Failure>,
)
    ensures
        process(program_id, accounts, instruction_data) matches Err(failure) ==> failure.is_canonical(),
        resume(accounts, stage, reply) matches Err(failure) ==> failure.is_canonical() || reply == Err::<
            (),
            Failure,
        >(failure),
{
    lemma_codes_name_canonical_failures();
}

/// How many requests a call still sends once the reply to the request of
/// `stage` is in.
pub open spec fn requests_left(stage: Stage) -> nat {
    match stage {
        Stage::Delegating => 0,
        Stage::PayingInitializer { .. } => 2,
        Stage::ReleasingDeposit { .. } => 1,
        Stage::ClosingDeposit => 0,
    }
}

/// Every call ends: each reply brings the call one request nearer to its
/// end, so an opening sends one request and a settlement three.
pub proof fn lemma_every_call_ends(
    program_id: Address,
    accounts: Seq<AccountView>,
    instruction_data: Seq<u8>,
    stage: Stage,
    reply: Result<(), Failure>,
)
    ensures
        process(program_id, accounts, instruction_data) matches Ok(
            (_, StepView::Invoke { then, .. }),
        ) ==> requests_left(then) <= 2,
        process(program_id, accounts, instruction_data) is Ok
            ==> process(program_id, accounts, instruction_data)->Ok_0.1 is Invoke,
        resume(accounts, stage, reply) matches Ok((_, StepView::Invoke { then, .. })) ==> requests_left(then)
            < requests_left(stage),
        resume(accounts, stage, reply) is Ok && requests_left(stage) == 0 ==> resume(
            accounts,
            stage,
            reply,
        )->Ok_0.1 is Done,
        resume(accounts, stage, reply) is Ok && requests_left(stage) > 0 ==> resume(
            accounts,
            stage,
            reply,
        )->Ok_0.1 is Invoke,
{
}

/// The ledger has moved `amount` units from the asset account at the
/// position `source` to the one at `destination`, and has touched nothing
/// else.
pub open spec fn moved(
    before: Seq<AccountView>,
    after: Seq<AccountView>,
    source: int,
    destination: int,
    amount: u64,
) -> bool {
    &&& after.len() == before.len()
    &&& 0 <= source < before.len()
    &&& 0 <= destination < before.len()
    &&& source != destination
    &&& forall|i: int| 0 <= i < before.len() && i != source && i != destination ==> after[i] == before[i]
    &&& after[source] == (AccountView { data: after[source].data, ..before[source] })
    &&& after[destination] == (AccountView { data: after[destination].data, ..before[destination] })
    &&& token_balance(before[source].data) matches Ok(held)
    &&& token_balance(before[destination].data) matches Ok(had)
    &&& token_balance(after[source].data) matches Ok(left)
    &&& token_balance(after[destination].data) matches Ok(has)
    &&& left == held - amount
    &&& has == had + amount
}

/// The ledger has closed the asset account at the position `account`, has
/// handed its backing balance to the account at `destination`, and has
/// touched nothing else.
pub open spec fn closed(before: Seq<AccountView>, after: Seq<AccountView>, account: int, destination: int) -> bool {
    &&& after.len() == before.len()
    &&& 0 <= account < before.len()
    &&& 0 <= destination < before.len()
    &&& account != destination
    &&& forall|i: int| 0 <= i < before.len() && i != account && i != destination ==> after[i] == before[i]
    &&& after[account].key == before[account].key
    &&& after[account].lamports == 0
    &&& after[destination] == (AccountView { lamports: after[destination].lamports, ..before[destination] })
    &&& after[destination].lamports == before[destination].lamports + before[account].lamports
}

/// The ledger has moved nothing: every account has the backing balance and
/// holds the assets that it had.
pub open spec fn kept(before: Seq<AccountView>, after: Seq<AccountView>) -> bool {
    &&& after.len() == before.len()
    &&& forall|i: int|
        0 <= i < before.len() ==> after[i].key == before[i].key && after[i].lamports == before[i].lamports
            && token_balance(after[i].data) == token_balance(before[i].data)
}

/// The ledger has done what `call` asks of it, turning the accounts `before`
/// into `after`: a request of nine bytes with the tag 3 moves the amount that
/// follows the tag between the first two accounts of the request; the
/// request of the one byte 9 closes the first account in favour of the
/// second; any other request moves nothing.
pub open spec fn honoured(before: Seq<AccountView>, call: InvocationView, after: Seq<AccountView>) -> bool {
    let data = call.instruction.data;
    if data.len() == 9 && data[0] == 3 && call.accounts.len() >= 2 {
        moved(
            before,
            after,
            call.accounts[0] as int,
            call.accounts[1] as int,
            spec_u64_from_le_bytes(data.subrange(1, 9)),
        )
    } else if data.len() == 1 && data[0] == 9 && call.accounts.len() >= 2 {
        closed(before, after, call.accounts[0] as int, call.accounts[1] as int)
    } else {
        kept(before, after)
    }
}

/// A settlement that runs to its end, with the ledger honouring each of its
/// three requests: `start` is what the call is handed, `paid`, `released`
/// and `emptied` are the accounts after the first, the second and the third
/// request, and `end` is what the last part leaves. The ledger's changes are
/// told position by position, as the host reads them back.
pub open spec fn settles(
    program_id: Address,
    amount: u64,
    start: Seq<AccountView>,
    paid: Seq<AccountView>,
    released: Seq<AccountView>,
    emptied: Seq<AccountView>,
    end: Seq<AccountView>,
) -> bool {
    &&& exchange(program_id, start, amount) matches Ok((_, StepView::Invoke { call: pay, then: first }))
    &&& honoured(start, pay, paid)
    &&& resume(paid, first, Ok(())) matches Ok((_, StepView::Invoke { call: release, then: second }))
    &&& honoured(paid, release, released)
    &&& resume(released, second, Ok(())) matches Ok((_, StepView::Invoke { call: close, then: third }))
    &&& honoured(released, close, emptied)
    &&& resume(emptied, third, Ok(())) == Ok::<(Seq<AccountView>, StepView), Failure>((end, StepView::Done))
}

/// The net effect of a settlement. The taker's paying account loses what the
/// record asks for and the initializer's receiving account gains it; the
/// whole deposit goes to the taker's receiving account; the deposit account
/// ends empty and without backing balance; the initializer gains the backing
/// balances of the deposit account and of the record's storage; and the
/// storage ends zeroed over its whole length and without backing balance.
pub proof fn lemma_settlement_net_effect(
    program_id: Address,
    amount: u64,
    start: Seq<AccountView>,
    paid: Seq<AccountView>,
    released: Seq<AccountView>,
    emptied: Seq<AccountView>,
    end: Seq<AccountView>,
)
    requires
        settles(program_id, amount, start, paid, released, emptied, end),
    ensures
        ({
            let asked = open_record_of(start[6].data)->Ok_0.expected_amount;
            &&& end.len() == start.len()
            &&& token_balance(start[3].data) == Ok::<u64, Failure>(amount)
            &&& token_balance(start[1].data) matches Ok(taker_had)
            &&& token_balance(end[1].data) matches Ok(taker_has)
            &&& taker_has == taker_had - asked
            &&& token_balance(start[5].data) matches Ok(initializer_had)
            &&& token_balance(end[5].data) matches Ok(initializer_has)
            &&& initializer_has == initializer_had + asked
            &&& token_balance(start[2].data) matches Ok(received_before)
            &&& token_balance(end[2].data) matches Ok(received_after)
            &&& received_after == received_before + amount
            &&& token_balance(released[3].data) == Ok::<u64, Failure>(0)
            &&& end[3].lamports == 0
            &&& end[4].lamports == start[4].lamports + start[3].lamports + start[6].lamports
            &&& end[6].lamports == 0
            &&& end[6].data == zeroed(start[6].data.len())
            &&& end[6].data.len() == start[6].data.len()
            &&& forall|i: int| 0 <= i < end[6].data.len() ==> end[6].data[i] == 0
        }),
{
    lemma_auto_spec_u64_to_from_le_bytes();
    let pay = exchange(program_id, start, amount)->Ok_0.1->call;
    let first = exchange(program_id, start, amount)->Ok_0.1->then;
    let asked = open_record_of(start[6].data)->Ok_0.expected_amount;
    assert(pay.instruction.data.subrange(1, 9) =~= vstd::bytes::spec_u64_to_le_bytes(asked));
    assert(moved(start, paid, 1, 5, asked));
    let release = resume(paid, first, Ok(()))->Ok_0.1->call;
    let second = resume(paid, first, Ok(()))->Ok_0.1->then;
    assert(release.instruction.data.subrange(1, 9) =~= vstd::bytes::spec_u64_to_le_bytes(amount));
    assert(moved(paid, released, 3, 2, amount));
    let close = resume(released, second, Ok(()))->Ok_0.1->call;
    assert(closed(released, emptied, 3, 4));
}

} // verus!
