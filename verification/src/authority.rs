//! The derived authority: an address computed from the program's own address
//! and a fixed label. No key pair belongs to it, so only the program can
//! speak for it; it is the custodian of every deposit.

use vstd::prelude::*;
use solana_program::pubkey::Pubkey;
use crate::address::{address_from, lemma_address_from, Address};

verus! {

/// What `Pubkey::try_find_program_address` finds for the seeds `seeds` and
/// the program `program_id`: the derived address with the bump that makes it
/// valid, or nothing where no bump does.
pub uninterp spec fn program_address(seeds: Seq<Seq<u8>>, program_id: Seq<u8>) -> Option<(Seq<u8>, u8)>;

/// The label from which the custodian is derived: the ASCII of `escrow`.
pub open spec fn authority_label() -> Seq<u8> {
    seq![101u8, 115, 99, 114, 111, 119]
}

/// The custodian of the program `program_id` and its bump.
pub open spec fn derived_authority(program_id: Address) -> Option<(Address, u8)> {
    match program_address(seq![authority_label()], program_id@) {
        Some((bytes, bump)) => Some((address_from(bytes), bump)),
        None => None,
    }
}

/// Calls `Pubkey::try_find_program_address` with the one seed `seed`. The
/// contract only names the result: it is the same for the same seed and
/// program.
#[verifier::external_body]
fn try_find_program_address(seed: &[u8], program_id: &Address) -> (r: Option<(Address, u8)>)
    ensures
        match r {
            Some((address, bump)) => program_address(seq![seed@], program_id@) == Some((address@, bump)),
            None => program_address(seq![seed@], program_id@) is None,
        },
{
    Pubkey::try_find_program_address(&[seed], &program_id.bytes.into()).map(
        |(key, bump)| (Address { bytes: key.to_bytes() }, bump),
    )
}

/// The label from which the custodian is derived.
pub fn label() -> (v: Vec<u8>)
    ensures
        v@ == authority_label(),
{
    vec![101u8, 115, 99, 114, 111, 119]
}

/// Derives the custodian of the program `program_id`.
pub fn derive(program_id: &Address) -> (r: Option<(Address, u8)>)
    ensures
        r == derived_authority(*program_id),
{
    let seed = label();
    match try_find_program_address(seed.as_slice(), program_id) {
        Some((address, bump)) => {
            proof {
                lemma_address_from(Seq::empty(), address);
            }
            Some((address, bump))
        },
        None => None,
    }
}

} // verus!
