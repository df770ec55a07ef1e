//! The token ledger: the outside service that holds the assets. The program
//! reads what an asset account holds and builds the requests that it sends
//! to the service; it never moves an asset itself.

use vstd::prelude::*;
use vstd::bytes::{spec_u64_from_le_bytes, spec_u64_to_le_bytes};
use solana_program::program_pack::Pack;
use crate::address::Address;
use crate::error::{
    failure_of_code, Failure, INCORRECT_PROGRAM_ID, INVALID_ACCOUNT_DATA, UNINITIALIZED_ACCOUNT,
};

verus! {

/// One account that a request names, and how the service may use it.
#[derive(Clone, Copy, Debug, PartialEq, Eq)]
pub struct AccountMeta {
    pub pubkey: Address,
    /// The request must carry the signature of this account.
    pub is_signer: bool,
    /// The service may change the account.
    pub is_writable: bool,
}

/// A request to a program: which program, on which accounts, with what payload.
#[derive(Clone, Debug, PartialEq, Eq)]
pub struct Instruction {
    pub program_id: Address,
    pub accounts: Vec<AccountMeta>,
    pub data: Vec<u8>,
}

/// A request, with its lists as sequences.
pub struct InstructionView {
    pub program_id: Address,
    pub accounts: Seq<AccountMeta>,
    pub data: Seq<u8>,
}

impl View for Instruction {
    type V = InstructionView;

    open spec fn view(&self) -> InstructionView {
        InstructionView { program_id: self.program_id, accounts: self.accounts@, data: self.data@ }
    }
}

/// The bytes of the token program's address.
pub open spec fn token_program_bytes() -> Seq<u8> {
    seq![
        6u8, 221, 246, 225, 215, 101, 161, 147, 217, 203, 225, 70, 206, 235, 121, 172,
        28, 180, 133, 237, 95, 91, 55, 145, 58, 140, 245, 133, 126, 255, 0, 169,
    ]
}

/// Number of bytes in the storage of an asset account.
pub const TOKEN_ACCOUNT_LEN: usize = 165;

/// Whether the four bytes of `data` from `at` are the tag of an optional
/// field: 0 for none or 1 for some, lowest byte first.
pub open spec fn option_tag(data: Seq<u8>, at: int) -> bool {
    data[at] <= 1 && data[at + 1] == 0 && data[at + 2] == 0 && data[at + 3] == 0
}

/// What the storage `data` holds as an asset account: the amount, or the
/// code of the failure with which the storage is refused. The storage has
/// 165 bytes: the mint and the owner, 32 each; the amount in bytes 64 to 71,
/// lowest first; the delegate, optional, from 72; the state in byte 108,
/// 0 for uninitialized, 1 for initialized, 2 for frozen; the native reserve,
/// optional, from 109; the delegated amount; the close authority, optional,
/// from 129.
pub open spec fn token_account_amount(data: Seq<u8>) -> Result<u64, u64> {
    if data.len() != TOKEN_ACCOUNT_LEN || !option_tag(data, 72) || data[108] > 2 || !option_tag(data, 109)
        || !option_tag(data, 129) {
        Err(INVALID_ACCOUNT_DATA)
    } else if data[108] == 0 {
        Err(UNINITIALIZED_ACCOUNT)
    } else {
        Ok(spec_u64_from_le_bytes(data.subrange(64, 72)))
    }
}

pub open spec fn meta(pubkey: Address, is_signer: bool, is_writable: bool) -> AccountMeta {
    AccountMeta { pubkey, is_signer, is_writable }
}

/// The request that makes `new_owner` the owner of the asset account `owned`,
/// asked for by `owner` and signed by `signer`.
pub open spec fn set_owner_request(
    token_program: Address,
    owned: Address,
    new_owner: Address,
    owner: Address,
    signer: Address,
) -> Result<InstructionView, u64> {
    if token_program@ != token_program_bytes() {
        Err(INCORRECT_PROGRAM_ID)
    } else {
        Ok(
            InstructionView {
                program_id: token_program,
                accounts: seq![
                    meta(owned, false, true),
                    meta(owner, false, false),
                    meta(signer, true, false),
                ],
                data: seq![6u8, 2u8, 1u8] + new_owner@,
            },
        )
    }
}

/// The request that moves `amount` units from `source` to `destination`, asked
/// for by `authority` and signed by `signer`.
pub open spec fn transfer_request(
    token_program: Address,
    source: Address,
    destination: Address,
    authority: Address,
    signer: Address,
    amount: u64,
) -> Result<InstructionView, u64> {
    if token_program@ != token_program_bytes() {
        Err(INCORRECT_PROGRAM_ID)
    } else {
        Ok(
            InstructionView {
                program_id: token_program,
                accounts: seq![
                    meta(source, false, true),
                    meta(destination, false, true),
                    meta(authority, false, false),
                    meta(signer, true, false),
                ],
                data: seq![3u8] + spec_u64_to_le_bytes(amount),
            },
        )
    }
}

/// The request that closes `account` and hands its backing balance to
/// `destination`, asked for by `owner` and signed by `signer`.
pub open spec fn close_account_request(
    token_program: Address,
    account: Address,
    destination: Address,
    owner: Address,
    signer: Address,
) -> Result<InstructionView, u64> {
    if token_program@ != token_program_bytes() {
        Err(INCORRECT_PROGRAM_ID)
    } else {
        Ok(
            InstructionView {
                program_id: token_program,
                accounts: seq![
                    meta(account, false, true),
                    meta(destination, false, true),
                    meta(owner, false, false),
                    meta(signer, true, false),
                ],
                data: seq![9u8],
            },
        )
    }
}

/// A built request or the code of a failure, with the request by its view.
pub open spec fn built(r: Result<Instruction, u64>) -> Result<InstructionView, u64> {
    match r {
        Ok(instruction) => Ok(instruction@),
        Err(code) => Err(code),
    }
}

/// Calls `spl_token::id`. The contract claims that the token program's
/// address is the 32 bytes of `token_program_bytes`.
#[verifier::external_body]
fn spl_token_id() -> (id: Address)
    ensures
        id@ == token_program_bytes(),
{
    Address { bytes: spl_token::id().to_bytes() }
}

/// Calls `spl_token::state::Account::unpack` on the storage of an asset
/// account and picks the amount. The contract claims what
/// `token_account_amount` states: storage of another size than 165 bytes,
/// with a tag of an optional field that is neither 0 nor 1, or with a state
/// above 2 is refused with the code of `InvalidAccountData`; storage in the
/// state 0 with the code of `UninitializedAccount`; and else the amount is
/// read from the bytes 64 to 71, lowest first.
#[verifier::external_body]
fn spl_token_unpack_amount(data: &[u8]) -> (r: Result<u64, u64>)
    ensures
        r == token_account_amount(data@),
{
    spl_token::state::Account::unpack(data).map(|account| account.amount).map_err(u64::from)
}

/// Calls `spl_token::instruction::set_authority` for the authority
/// `AccountOwner`, with `new_owner` as the new authority and `signer` as the
/// only signer. The contract claims that it refuses any program but the token
/// program with the code of `IncorrectProgramId`, and else builds the request
/// of `set_owner_request`: the owned account writable, the owner and the
/// signer read-only, the signer alone marked as signing; as payload the tag 6,
/// the number 2 of the authority, the tag 1 and the new owner's bytes.
#[verifier::external_body]
fn spl_token_set_owner(
    token_program: &Address,
    owned: &Address,
    new_owner: &Address,
    owner: &Address,
    signer: &Address,
) -> (r: Result<Instruction, u64>)
    ensures
        built(r) == set_owner_request(*token_program, *owned, *new_owner, *owner, *signer),
{
    spl_token::instruction::set_authority(
        &token_program.bytes.into(), &owned.bytes.into(), Some(&new_owner.bytes.into()),
        spl_token::instruction::AuthorityType::AccountOwner, &owner.bytes.into(), &[&signer.bytes.into()],
    ).map(|ix| Instruction {
        program_id: Address { bytes: ix.program_id.to_bytes() },
        accounts: ix.accounts.iter().map(|m| AccountMeta {
            pubkey: Address { bytes: m.pubkey.to_bytes() }, is_signer: m.is_signer, is_writable: m.is_writable,
        }).collect(),
        data: ix.data,
    }).map_err(u64::from)
}

/// Calls `spl_token::instruction::transfer` with `signer` as the only signer.
/// The contract claims that it refuses any program but the token program with
/// the code of `IncorrectProgramId`, and else builds the request of
/// `transfer_request`: source and destination writable, the authority and the
/// signer read-only, the signer alone marked as signing; as payload the tag 3
/// and the amount in eight bytes, lowest first.
#[verifier::external_body]
fn spl_token_transfer(
    token_program: &Address,
    source: &Address,
    destination: &Address,
    authority: &Address,
    signer: &Address,
    amount: u64,
) -> (r: Result<Instruction, u64>)
    ensures
        built(r) == transfer_request(*token_program, *source, *destination, *authority, *signer, amount),
{
    spl_token::instruction::transfer(
        &token_program.bytes.into(), &source.bytes.into(), &destination.bytes.into(),
        &authority.bytes.into(), &[&signer.bytes.into()], amount,
    ).map(|ix| Instruction {
        program_id: Address { bytes: ix.program_id.to_bytes() },
        accounts: ix.accounts.iter().map(|m| AccountMeta {
            pubkey: Address { bytes: m.pubkey.to_bytes() }, is_signer: m.is_signer, is_writable: m.is_writable,
        }).collect(),
        data: ix.data,
    }).map_err(u64::from)
}

/// Calls `spl_token::instruction::close_account` with `signer` as the only
/// signer. The contract claims that it refuses any program but the token
/// program with the code of `IncorrectProgramId`, and else builds the request
/// of `close_account_request`: the account and the destination writable, the
/// owner and the signer read-only, the signer alone marked as signing; as
/// payload the tag 9.
#[verifier::external_body]
fn spl_token_close_account(
    token_program: &Address,
    account: &Address,
    destination: &Address,
    owner: &Address,
    signer: &Address,
) -> (r: Result<Instruction, u64>)
    ensures
        built(r) == close_account_request(*token_program, *account, *destination, *owner, *signer),
{
    spl_token::instruction::close_account(
        &token_program.bytes.into(), &account.bytes.into(), &destination.bytes.into(),
        &owner.bytes.into(), &[&signer.bytes.into()],
    ).map(|ix| Instruction {
        program_id: Address { bytes: ix.program_id.to_bytes() },
        accounts: ix.accounts.iter().map(|m| AccountMeta {
            pubkey: Address { bytes: m.pubkey.to_bytes() }, is_signer: m.is_signer, is_writable: m.is_writable,
        }).collect(),
        data: ix.data,
    }).map_err(u64::from)
}

/// What a built request or the code of a failure is to a caller of this module.
pub open spec fn request_or_failure(r: Result<InstructionView, u64>) -> Result<InstructionView, Failure> {
    match r {
        Ok(instruction) => Ok(instruction),
        Err(code) => Err(failure_of_code(code)),
    }
}

/// What `data` holds as the storage of an asset account.
pub open spec fn token_balance(data: Seq<u8>) -> Result<u64, Failure> {
    match token_account_amount(data) {
        Ok(amount) => Ok(amount),
        Err(code) => Err(failure_of_code(code)),
    }
}

/// A request or a failure, with the request by its view.
pub open spec fn request_view(r: Result<Instruction, Failure>) -> Result<InstructionView, Failure> {
    match r {
        Ok(instruction) => Ok(instruction@),
        Err(failure) => Err(failure),
    }
}

/// The address of the token program.
pub fn id() -> (id: Address)
    ensures
        id@ == token_program_bytes(),
{
    spl_token_id()
}

/// Reads the amount that an asset account with the storage `data` holds.
pub fn balance(data: &[u8]) -> (r: Result<u64, Failure>)
    ensures
        r == token_balance(data@),
{
    match spl_token_unpack_amount(data) {
        Ok(amount) => Ok(amount),
        Err(code) => Err(Failure::from_code(code)),
    }
}

/// Builds the request that hands the asset account `owned` over from `owner`
/// to `new_owner`.
pub fn set_owner(token_program: &Address, owned: &Address, new_owner: &Address, owner: &Address) -> (r:
    Result<Instruction, Failure>)
    ensures
        request_view(r) == request_or_failure(
            set_owner_request(*token_program, *owned, *new_owner, *owner, *owner),
        ),
{
    match spl_token_set_owner(token_program, owned, new_owner, owner, owner) {
        Ok(instruction) => Ok(instruction),
        Err(code) => Err(Failure::from_code(code)),
    }
}

/// Builds the request that moves `amount` units from `source` to
/// `destination` on the word of `authority`.
pub fn transfer(
    token_program: &Address,
    source: &Address,
    destination: &Address,
    authority: &Address,
    amount: u64,
) -> (r: Result<Instruction, Failure>)
    ensures
        request_view(r) == request_or_failure(
            transfer_request(*token_program, *source, *destination, *authority, *authority, amount),
        ),
{
    match spl_token_transfer(token_program, source, destination, authority, authority, amount) {
        Ok(instruction) => Ok(instruction),
        Err(code) => Err(Failure::from_code(code)),
    }
}

/// Builds the request that closes `account` on the word of `owner` and hands
/// its backing balance to `destination`.
pub fn close_account(token_program: &Address, account: &Address, destination: &Address, owner: &Address) -> (r:
    Result<Instruction, Failure>)
    ensures
        request_view(r) == request_or_failure(
            close_account_request(*token_program, *account, *destination, *owner, *owner),
        ),
{
    match spl_token_close_account(token_program, account, destination, owner, owner) {
        Ok(instruction) => Ok(instruction),
        Err(code) => Err(Failure::from_code(code)),
    }
}

} // verus!
