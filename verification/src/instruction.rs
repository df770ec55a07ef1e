//! The two operations of the program and how a call names one of them.

use vstd::prelude::*;
use vstd::bytes::{spec_u64_from_le_bytes, u64_from_le_bytes};
use vstd::slice::slice_subrange;
use crate::error::{EscrowError, Failure};

verus! {

/// One operation of the program, with the quantity it carries.
#[derive(Clone, Copy, Debug, PartialEq, Eq, Structural)]
pub enum EscrowInstruction {
    /// Opens an escrow: the initializer asks for `amount` units in return
    /// for the deposit.
    InitEscrow { amount: u64 },
    /// Settles an escrow: the taker expects the deposit to hold `amount` units.
    Exchange { amount: u64 },
}

/// The operation that the payload `input` names: a tag, 0 to open and 1 to
/// settle, then the quantity in eight bytes, lowest first. What follows the
/// ninth byte is not read.
pub open spec fn decode(input: Seq<u8>) -> Result<EscrowInstruction, Failure> {
    if input.len() < 9 || input[0] > 1 {
        Err(Failure::Escrow(EscrowError::InvalidInstruction))
    } else if input[0] == 0 {
        Ok(EscrowInstruction::InitEscrow { amount: spec_u64_from_le_bytes(input.subrange(1, 9)) })
    } else {
        Ok(EscrowInstruction::Exchange { amount: spec_u64_from_le_bytes(input.subrange(1, 9)) })
    }
}

impl EscrowInstruction {
    /// Decodes the payload of a call.
    pub fn unpack(input: &[u8]) -> (r: Result<EscrowInstruction, Failure>)
        ensures
            r == decode(input@),
    {
        if input.len() < 1 {
            return Err(Failure::Escrow(EscrowError::InvalidInstruction));
        }
        let tag = input[0];
        if tag > 1 || input.len() < 9 {
            return Err(Failure::Escrow(EscrowError::InvalidInstruction));
        }
        let amount = u64_from_le_bytes(slice_subrange(input, 1, 9));
        if tag == 0 {
            Ok(EscrowInstruction::InitEscrow { amount })
        } else {
            Ok(EscrowInstruction::Exchange { amount })
        }
    }
}

} // verus!
