//! Failures of the escrow program, and the numeric codes under which the
//! runtime reports them.

use vstd::prelude::*;

verus! {

/// Code of custom failure number zero.
pub const CUSTOM_ZERO: u64 = 0x1_0000_0000;

pub const INVALID_ARGUMENT: u64 = 0x2_0000_0000;

pub const INVALID_ACCOUNT_DATA: u64 = 0x4_0000_0000;

pub const INCORRECT_PROGRAM_ID: u64 = 0x7_0000_0000;

pub const MISSING_REQUIRED_SIGNATURE: u64 = 0x8_0000_0000;

pub const ACCOUNT_ALREADY_INITIALIZED: u64 = 0x9_0000_0000;

pub const UNINITIALIZED_ACCOUNT: u64 = 0xa_0000_0000;

pub const NOT_ENOUGH_ACCOUNT_KEYS: u64 = 0xb_0000_0000;

pub const INVALID_SEEDS: u64 = 0xe_0000_0000;

pub const ARITHMETIC_OVERFLOW: u64 = 0x18_0000_0000;

/// The failures that belong to the escrow protocol itself.
#[derive(Clone, Copy, Debug, PartialEq, Eq, Structural)]
pub enum EscrowError {
    /// The instruction payload could not be decoded.
    InvalidInstruction,
    /// The storage of the escrow record is not rent-exempt.
    NotRentExempt,
    /// The taker expects another amount than the deposit holds.
    ExpectedAmountMismatch,
    /// Adding two rent balances does not fit in 64 bits.
    AmountOverflow,
}

/// Why a call of the program failed.
#[derive(Clone, Copy, Debug, PartialEq, Eq, Structural)]
pub enum Failure {
    Escrow(EscrowError),
    InvalidArgument,
    InvalidAccountData,
    IncorrectProgramId,
    MissingRequiredSignature,
    AccountAlreadyInitialized,
    UninitializedAccount,
    NotEnoughAccountKeys,
    InvalidSeeds,
    ArithmeticOverflow,
    /// A failure that this program never raises itself, kept by its code.
    Other(u64),
}

impl EscrowError {
    /// The number of the failure among the program's custom failures.
    pub open spec fn number(self) -> u32 {
        match self {
            EscrowError::InvalidInstruction => 0,
            EscrowError::NotRentExempt => 1,
            EscrowError::ExpectedAmountMismatch => 2,
            EscrowError::AmountOverflow => 3,
        }
    }

    pub fn code(self) -> (n: u32)
        ensures
            n == self.number(),
    {
        match self {
            EscrowError::InvalidInstruction => 0,
            EscrowError::NotRentExempt => 1,
            EscrowError::ExpectedAmountMismatch => 2,
            EscrowError::AmountOverflow => 3,
        }
    }
}

/// The code under which the runtime reports `f`.
pub open spec fn failure_code(f: Failure) -> u64 {
    match f {
        Failure::Escrow(e) => if e == EscrowError::InvalidInstruction {
            CUSTOM_ZERO
        } else {
            e.number() as u64
        },
        Failure::InvalidArgument => INVALID_ARGUMENT,
        Failure::InvalidAccountData => INVALID_ACCOUNT_DATA,
        Failure::IncorrectProgramId => INCORRECT_PROGRAM_ID,
        Failure::MissingRequiredSignature => MISSING_REQUIRED_SIGNATURE,
        Failure::AccountAlreadyInitialized => ACCOUNT_ALREADY_INITIALIZED,
        Failure::UninitializedAccount => UNINITIALIZED_ACCOUNT,
        Failure::NotEnoughAccountKeys => NOT_ENOUGH_ACCOUNT_KEYS,
        Failure::InvalidSeeds => INVALID_SEEDS,
        Failure::ArithmeticOverflow => ARITHMETIC_OVERFLOW,
        Failure::Other(code) => code,
    }
}

/// The failure that the runtime reports under `code`.
pub open spec fn failure_of_code(code: u64) -> Failure {
    if code == CUSTOM_ZERO {
        Failure::Escrow(EscrowError::InvalidInstruction)
    } else if code == 1 {
        Failure::Escrow(EscrowError::NotRentExempt)
    } else if code == 2 {
        Failure::Escrow(EscrowError::ExpectedAmountMismatch)
    } else if code == 3 {
        Failure::Escrow(EscrowError::AmountOverflow)
    } else if code == INVALID_ARGUMENT {
        Failure::InvalidArgument
    } else if code == INVALID_ACCOUNT_DATA {
        Failure::InvalidAccountData
    } else if code == INCORRECT_PROGRAM_ID {
        Failure::IncorrectProgramId
    } else if code == MISSING_REQUIRED_SIGNATURE {
        Failure::MissingRequiredSignature
    } else if code == ACCOUNT_ALREADY_INITIALIZED {
        Failure::AccountAlreadyInitialized
    } else if code == UNINITIALIZED_ACCOUNT {
        Failure::UninitializedAccount
    } else if code == NOT_ENOUGH_ACCOUNT_KEYS {
        Failure::NotEnoughAccountKeys
    } else if code == INVALID_SEEDS {
        Failure::InvalidSeeds
    } else if code == ARITHMETIC_OVERFLOW {
        Failure::ArithmeticOverflow
    } else {
        Failure::Other(code)
    }
}

impl Failure {
    /// `Other` holds only codes that no other variant stands for.
    pub open spec fn is_canonical(self) -> bool {
        self matches Failure::Other(code) ==> failure_of_code(code) == self
    }

    pub fn code(&self) -> (code: u64)
        ensures
            code == failure_code(*self),
    {
        match self {
            Failure::Escrow(e) => match e {
                EscrowError::InvalidInstruction => CUSTOM_ZERO,
                EscrowError::NotRentExempt => 1,
                EscrowError::ExpectedAmountMismatch => 2,
                EscrowError::AmountOverflow => 3,
            },
            Failure::InvalidArgument => INVALID_ARGUMENT,
            Failure::InvalidAccountData => INVALID_ACCOUNT_DATA,
            Failure::IncorrectProgramId => INCORRECT_PROGRAM_ID,
            Failure::MissingRequiredSignature => MISSING_REQUIRED_SIGNATURE,
            Failure::AccountAlreadyInitialized => ACCOUNT_ALREADY_INITIALIZED,
            Failure::UninitializedAccount => UNINITIALIZED_ACCOUNT,
            Failure::NotEnoughAccountKeys => NOT_ENOUGH_ACCOUNT_KEYS,
            Failure::InvalidSeeds => INVALID_SEEDS,
            Failure::ArithmeticOverflow => ARITHMETIC_OVERFLOW,
            Failure::Other(code) => *code,
        }
    }

    pub fn from_code(code: u64) -> (f: Failure)
        ensures
            f == failure_of_code(code),
            f.is_canonical(),
            failure_code(f) == code,
    {
        if code == CUSTOM_ZERO {
            Failure::Escrow(EscrowError::InvalidInstruction)
        } else if code == 1 {
            Failure::Escrow(EscrowError::NotRentExempt)
        } else if code == 2 {
            Failure::Escrow(EscrowError::ExpectedAmountMismatch)
        } else if code == 3 {
            Failure::Escrow(EscrowError::AmountOverflow)
        } else if code == INVALID_ARGUMENT {
            Failure::InvalidArgument
        } else if code == INVALID_ACCOUNT_DATA {
            Failure::InvalidAccountData
        } else if code == INCORRECT_PROGRAM_ID {
            Failure::IncorrectProgramId
        } else if code == MISSING_REQUIRED_SIGNATURE {
            Failure::MissingRequiredSignature
        } else if code == ACCOUNT_ALREADY_INITIALIZED {
            Failure::AccountAlreadyInitialized
        } else if code == UNINITIALIZED_ACCOUNT {
            Failure::UninitializedAccount
        } else if code == NOT_ENOUGH_ACCOUNT_KEYS {
            Failure::NotEnoughAccountKeys
        } else if code == INVALID_SEEDS {
            Failure::InvalidSeeds
        } else if code == ARITHMETIC_OVERFLOW {
            Failure::ArithmeticOverflow
        } else {
            Failure::Other(code)
        }
    }
}

/// Codes and failures stand for each other: every code names one failure,
/// and a canonical failure is the one that its own code names.
pub proof fn lemma_failure_codes(f: Failure, code: u64)
    ensures
        failure_code(failure_of_code(code)) == code,
        failure_of_code(code).is_canonical(),
        f.is_canonical() ==> failure_of_code(failure_code(f)) == f,
{
}

/// Whatever the code, the failure that it names is canonical.
pub proof fn lemma_codes_name_canonical_failures()
    ensures
        forall|code: u64| #[trigger] failure_of_code(code).is_canonical(),
{
}

} // verus!
