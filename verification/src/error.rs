//! The error taxonomy of the vesting core.
//!
//! Every failure is returned as a value; nothing is swallowed and no record is
//! mutated on an error path. Errors fall into three kinds: malformed bytes,
//! violated transition preconditions, and arithmetic that cannot be carried
//! out (an undefined period derivation).

use vstd::prelude::*;

verus! {

/// Everything that can go wrong inside the vesting core.
#[derive(Clone, Copy, Debug, PartialEq, Eq, Structural)]
pub enum VestingError {
    /// The instruction buffer is truncated, malformed, or carries an
    /// unrecognized tag.
    InvalidInstruction,
    /// A persisted record buffer is truncated or holds an invalid boolean,
    /// frequency, or optional-identity tag byte.
    InvalidAccountData,
    /// An init transition found the schedule already initialized.
    AlreadyInitialized,
    /// A transition other than init observed an uninitialized record.
    Uninitialized,
    /// The caller is not the identity the transition requires.
    Unauthorized,
    /// A position's denormalized mint does not match its schedule's mint.
    MintMismatch,
    /// A position does not reference the schedule it was presented with.
    ScheduleMismatch,
    /// An amendment would set a position's total below what is already
    /// claimed.
    AmountBelowClaimed,
    /// A claim found nothing claimable at the current time.
    NothingToClaim,
    /// A position cannot be closed while its token holding is non-empty.
    NonEmptyHolding,
    /// A schedule cannot be closed while positions still reference it.
    DanglingPositions,
    /// A schedule cannot be closed while its vault still holds tokens.
    NonEmptyVault,
    /// The emission formula is undefined for the stored parameters.
    ArithmeticError,
}

/// The three classes of failure the core distinguishes.
#[derive(Clone, Copy, Debug, PartialEq, Eq, Structural)]
pub enum ErrorKind {
    /// Bytes could not be decoded into a record or instruction.
    Decode,
    /// A transition precondition did not hold; nothing was changed.
    Precondition,
    /// A period derivation or emission computation is undefined.
    Arithmetic,
}

impl VestingError {
    /// The stable numeric code reported to the caller for each error.
    pub open spec fn spec_code(self) -> u32 {
        match self {
            VestingError::InvalidInstruction => 0,
            VestingError::InvalidAccountData => 1,
            VestingError::AlreadyInitialized => 2,
            VestingError::Uninitialized => 3,
            VestingError::Unauthorized => 4,
            VestingError::MintMismatch => 5,
            VestingError::ScheduleMismatch => 6,
            VestingError::AmountBelowClaimed => 7,
            VestingError::NothingToClaim => 8,
            VestingError::NonEmptyHolding => 9,
            VestingError::DanglingPositions => 10,
            VestingError::NonEmptyVault => 11,
            VestingError::ArithmeticError => 12,
        }
    }

    /// The class an error belongs to.
    pub open spec fn spec_kind(self) -> ErrorKind {
        match self {
            VestingError::InvalidInstruction => ErrorKind::Decode,
            VestingError::InvalidAccountData => ErrorKind::Decode,
            VestingError::ArithmeticError => ErrorKind::Arithmetic,
            _ => ErrorKind::Precondition,
        }
    }

    /// Maps the error to the numeric code a caller boundary reports.
    pub fn code(&self) -> (r: u32)
        ensures
            r == self.spec_code(),
    {
        match self {
            VestingError::InvalidInstruction => 0,
            VestingError::InvalidAccountData => 1,
            VestingError::AlreadyInitialized => 2,
            VestingError::Uninitialized => 3,
            VestingError::Unauthorized => 4,
            VestingError::MintMismatch => 5,
            VestingError::ScheduleMismatch => 6,
            VestingError::AmountBelowClaimed => 7,
            VestingError::NothingToClaim => 8,
            VestingError::DanglingPositions => 10,
            VestingError::NonEmptyHolding => 9,
            VestingError::NonEmptyVault => 11,
            VestingError::ArithmeticError => 12,
        }
    }

    /// Classifies the error.
    pub fn kind(&self) -> (r: ErrorKind)
        ensures
            r == self.spec_kind(),
    {
        match self {
            VestingError::InvalidInstruction => ErrorKind::Decode,
            VestingError::InvalidAccountData => ErrorKind::Decode,
            VestingError::ArithmeticError => ErrorKind::Arithmetic,
            _ => ErrorKind::Precondition,
        }
    }
}

} // verus!
