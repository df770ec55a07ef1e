//! Rent exemption: whether the backing balance of a storage is high enough
//! for the storage to last. The rule is the runtime's; the program asks.

use vstd::prelude::*;
use solana_program::account_info::AccountInfo;
use solana_program::sysvar::rent::Rent;
use solana_program::sysvar::Sysvar;
use crate::account::{Account, AccountView};
use vstd::bytes::spec_u64_from_le_bytes;
use crate::error::{failure_of_code, Failure, INVALID_ARGUMENT};

verus! {

/// Bytes that the runtime adds to the size of every storage when it
/// computes rent.
pub const ACCOUNT_STORAGE_OVERHEAD: u64 = 128;

/// Number of bytes that the rent takes in the storage of the rent account:
/// the rate in eight bytes, the exemption threshold in eight, and the burn
/// percentage in one.
pub const RENT_LEN: usize = 17;

/// The bytes of the rent account's address.
pub open spec fn rent_account_bytes() -> Seq<u8> {
    seq![
        6u8, 167, 213, 23, 25, 44, 92, 81, 33, 140, 201, 76, 61, 74, 241, 127,
        88, 218, 238, 8, 155, 161, 253, 68, 227, 219, 217, 138, 0, 0, 0, 0,
    ]
}

/// The rent rate, in lamports per byte and year, that the account with the
/// address `key` and the storage `data` holds, or the code of the failure
/// with which the account is refused: it must be the rent account and hold
/// at least 17 bytes, of which the first eight are the rate, lowest first.
pub open spec fn rent_rate(key: Seq<u8>, data: Seq<u8>) -> Result<u64, u64> {
    if key != rent_account_bytes() || data.len() < RENT_LEN {
        Err(INVALID_ARGUMENT)
    } else {
        Ok(spec_u64_from_le_bytes(data.subrange(0, 8)))
    }
}

/// What `Rent::is_exempt` answers for a storage of `data_len` bytes backed by
/// `balance`, asked of the rent that `Rent::from_account_info` reads from the
/// account with the address `key` and the storage `data`; or the code of the
/// failure with which that account is refused.
pub uninterp spec fn rent_exemption(key: Seq<u8>, data: Seq<u8>, balance: u64, data_len: nat) -> Result<
    bool,
    u64,
>;

/// Whether the runtime can compute the rent of `data_len` bytes at `rate`
/// in 64 bits.
pub open spec fn rent_computable(rate: u64, data_len: nat) -> bool {
    ACCOUNT_STORAGE_OVERHEAD + data_len <= u64::MAX && (ACCOUNT_STORAGE_OVERHEAD + data_len) * rate
        <= u64::MAX
}

/// Whether `balance` exempts a storage of `data_len` bytes from rent, by the
/// rent account `sysvar`.
pub open spec fn exemption(sysvar: AccountView, balance: u64, data_len: nat) -> Result<bool, Failure> {
    match rent_rate(sysvar.key@, sysvar.data) {
        Err(code) => Err(failure_of_code(code)),
        Ok(rate) => if !rent_computable(rate, data_len) {
            Err(Failure::ArithmeticOverflow)
        } else {
            match rent_exemption(sysvar.key@, sysvar.data, balance, data_len) {
                Ok(exempt) => Ok(exempt),
                Err(code) => Err(failure_of_code(code)),
            }
        },
    }
}

/// Calls `Rent::from_account_info` on an account with the address and the
/// storage of `sysvar`, and picks the rate. The contract claims what
/// `rent_rate` states: any account but the rent account, and storage of
/// fewer than 17 bytes, is refused with the code of `InvalidArgument`; else
/// the rate is read from the first eight bytes, lowest first, whatever the
/// bytes after them hold.
#[verifier::external_body]
fn rent_rate_from_account(sysvar: &Account) -> (r: Result<u64, u64>)
    ensures
        r == rent_rate(sysvar.key@, sysvar.data@),
{
    let (key, owner) = (sysvar.key.bytes.into(), sysvar.owner.bytes.into());
    let (mut lamports, mut data) = (sysvar.lamports, sysvar.data.clone());
    let info = AccountInfo::new(&key, sysvar.is_signer, false, &mut lamports, &mut data, &owner, false, 0);
    Rent::from_account_info(&info).map(|rent| rent.lamports_per_byte_year).map_err(u64::from)
}

/// Calls `Rent::is_exempt` on the rent that `Rent::from_account_info` reads
/// from an account with the address and the storage of `sysvar`. The contract
/// only names the result. `Rent::is_exempt` multiplies the rate by the size
/// plus 128 in 64 bits, so the contract asks that this does not overflow.
#[verifier::external_body]
fn rent_is_exempt(sysvar: &Account, balance: u64, data_len: usize) -> (r: Result<bool, u64>)
    requires
        rent_rate(sysvar.key@, sysvar.data@) matches Ok(rate) ==> rent_computable(rate, data_len as nat),
    ensures
        r == rent_exemption(sysvar.key@, sysvar.data@, balance, data_len as nat),
{
    let (key, owner) = (sysvar.key.bytes.into(), sysvar.owner.bytes.into());
    let (mut lamports, mut data) = (sysvar.lamports, sysvar.data.clone());
    let info = AccountInfo::new(&key, sysvar.is_signer, false, &mut lamports, &mut data, &owner, false, 0);
    Rent::from_account_info(&info).map(|rent| rent.is_exempt(balance, data_len)).map_err(u64::from)
}

/// Whether the rent of `data_len` bytes at `rate` can be computed in 64 bits.
pub fn computable(rate: u64, data_len: usize) -> (b: bool)
    ensures
        b == rent_computable(rate, data_len as nat),
{
    match (data_len as u64).checked_add(ACCOUNT_STORAGE_OVERHEAD) {
        Some(size) => size.checked_mul(rate).is_some(),
        None => false,
    }
}

/// Asks whether `balance` exempts a storage of `data_len` bytes from rent.
/// The runtime is asked only where it can compute the rent.
pub fn is_exempt(sysvar: &Account, balance: u64, data_len: usize) -> (r: Result<bool, Failure>)
    ensures
        r == exemption(sysvar@, balance, data_len as nat),
{
    let rate = match rent_rate_from_account(sysvar) {
        Ok(rate) => rate,
        Err(code) => {
            return Err(Failure::from_code(code));
        },
    };
    if !computable(rate, data_len) {
        return Err(Failure::ArithmeticOverflow);
    }
    match rent_is_exempt(sysvar, balance, data_len) {
        Ok(exempt) => Ok(exempt),
        Err(code) => Err(Failure::from_code(code)),
    }
}

} // verus!
