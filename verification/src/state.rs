//! The escrow record: the one thing that the program stores.

use vstd::prelude::*;
use vstd::bytes::{
    lemma_auto_spec_u64_to_from_le_bytes, spec_u64_from_le_bytes, spec_u64_to_le_bytes,
    u64_from_le_bytes, u64_to_le_bytes,
};
use vstd::slice::slice_subrange;
use crate::address::{address_from, lemma_address_from, Address};
use crate::error::Failure;

verus! {

/// Number of bytes that a record takes in storage.
pub const ESCROW_LEN: usize = 105;

/// The terms of one open escrow.
#[derive(Clone, Copy, Debug, PartialEq, Eq)]
pub struct Escrow {
    pub is_initialized: bool,
    /// Who made the deposit.
    pub initializer_pubkey: Address,
    /// The asset account that holds the deposit.
    pub temp_token_account_pubkey: Address,
    /// The asset account into which the initializer is to be paid.
    pub initializer_token_to_receive_account_pubkey: Address,
    /// How much the initializer asks for.
    pub expected_amount: u64,
}

/// The 105 bytes that store `e`: the flag, the three addresses, then the
/// amount in eight bytes, lowest first.
pub open spec fn record_bytes(e: Escrow) -> Seq<u8> {
    seq![if e.is_initialized { 1u8 } else { 0u8 }] + e.initializer_pubkey@
        + e.temp_token_account_pubkey@ + e.initializer_token_to_receive_account_pubkey@
        + spec_u64_to_le_bytes(e.expected_amount)
}

/// The record that the storage `data` holds, initialized or not.
pub open spec fn record_of(data: Seq<u8>) -> Result<Escrow, Failure> {
    if data.len() != ESCROW_LEN || data[0] > 1 {
        Err(Failure::InvalidAccountData)
    } else {
        Ok(
            Escrow {
                is_initialized: data[0] == 1,
                initializer_pubkey: address_from(data.subrange(1, 33)),
                temp_token_account_pubkey: address_from(data.subrange(33, 65)),
                initializer_token_to_receive_account_pubkey: address_from(data.subrange(65, 97)),
                expected_amount: spec_u64_from_le_bytes(data.subrange(97, 105)),
            },
        )
    }
}

/// The open escrow that the storage `data` holds.
pub open spec fn open_record_of(data: Seq<u8>) -> Result<Escrow, Failure> {
    match record_of(data) {
        Ok(e) => if e.is_initialized {
            Ok(e)
        } else {
            Err(Failure::UninitializedAccount)
        },
        Err(failure) => Err(failure),
    }
}

impl Escrow {
    pub fn is_initialized(&self) -> (b: bool)
        ensures
            b == self.is_initialized,
    {
        self.is_initialized
    }

    /// Reads a record, initialized or not, from storage.
    pub fn unpack_unchecked(input: &[u8]) -> (r: Result<Escrow, Failure>)
        ensures
            r == record_of(input@),
    {
        if input.len() != ESCROW_LEN {
            return Err(Failure::InvalidAccountData);
        }
        let flag = input[0];
        if flag > 1 {
            return Err(Failure::InvalidAccountData);
        }
        Ok(
            Escrow {
                is_initialized: flag == 1,
                initializer_pubkey: Address::read_from(input, 1),
                temp_token_account_pubkey: Address::read_from(input, 33),
                initializer_token_to_receive_account_pubkey: Address::read_from(input, 65),
                expected_amount: u64_from_le_bytes(slice_subrange(input, 97, 105)),
            },
        )
    }

    /// Reads the record of an open escrow from storage.
    pub fn unpack(input: &[u8]) -> (r: Result<Escrow, Failure>)
        ensures
            r == open_record_of(input@),
    {
        let e = Escrow::unpack_unchecked(input)?;
        if e.is_initialized {
            Ok(e)
        } else {
            Err(Failure::UninitializedAccount)
        }
    }

    /// Writes `src` over the storage `dst`, which must have the size of a record.
    pub fn pack(src: Escrow, dst: &mut Vec<u8>) -> (r: Result<(), Failure>)
        ensures
            old(dst)@.len() != ESCROW_LEN ==> r == Err::<(), Failure>(Failure::InvalidAccountData)
                && final(dst)@ == old(dst)@,
            old(dst)@.len() == ESCROW_LEN ==> r == Ok::<(), Failure>(()) && final(dst)@ == record_bytes(src),
    {
        if dst.len() != ESCROW_LEN {
            return Err(Failure::InvalidAccountData);
        }
        let mut out: Vec<u8> = Vec::new();
        out.push(if src.is_initialized { 1u8 } else { 0u8 });
        src.initializer_pubkey.write_to(&mut out);
        src.temp_token_account_pubkey.write_to(&mut out);
        src.initializer_token_to_receive_account_pubkey.write_to(&mut out);
        let mut amount = u64_to_le_bytes(src.expected_amount);
        out.append(&mut amount);
        assert(out@ =~= record_bytes(src));
        *dst = out;
        Ok(())
    }
}

/// A record takes 105 bytes, and reading them gives the record back.
pub proof fn lemma_record_round_trip(e: Escrow)
    ensures
        record_bytes(e).len() == ESCROW_LEN,
        record_of(record_bytes(e)) == Ok::<Escrow, Failure>(e),
{
    let data = record_bytes(e);
    lemma_auto_spec_u64_to_from_le_bytes();
    lemma_address_from(Seq::empty(), e.initializer_pubkey);
    lemma_address_from(Seq::empty(), e.temp_token_account_pubkey);
    lemma_address_from(Seq::empty(), e.initializer_token_to_receive_account_pubkey);
    assert(spec_u64_to_le_bytes(e.expected_amount).len() == 8);
    assert(data.len() == 105);
    assert(data.subrange(1, 33) =~= e.initializer_pubkey@);
    assert(data.subrange(33, 65) =~= e.temp_token_account_pubkey@);
    assert(data.subrange(65, 97) =~= e.initializer_token_to_receive_account_pubkey@);
    assert(data.subrange(97, 105) =~= spec_u64_to_le_bytes(e.expected_amount));
}

} // verus!
