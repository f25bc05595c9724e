//! Errors reported by the vesting program.
use vstd::prelude::*;

verus! {

/// Failures specific to the vesting program.
#[derive(Clone, Copy, Debug, PartialEq, Eq, Structural)]
pub enum VestingError {
    /// A request or an account did not match what the program expects.
    InvalidInstruction,
    /// An amount is zero, overflowed, or exceeds an available balance.
    InvalidAmount,
    /// A timestamp lies before the allowed range.
    InvalidTime,
    /// A project year is zero, after the last project year, or not the current one.
    InvalidYear,
    /// An issuance would exceed the yearly limit.
    ExceedsYearlyLimit,
}

/// The error a program instruction ends with.
///
/// `Vesting` carries a failure of this program; the other variants are the
/// runtime's generic failures that this program reports itself, and
/// `Outside` carries, by its runtime error code, a failure reported by
/// code outside this program (a sysvar, the token program's account
/// decoding).
#[derive(Clone, Copy, Debug, PartialEq, Eq, Structural)]
pub enum ProgramError {
    Vesting(VestingError),
    InvalidArgument,
    InvalidInstructionData,
    InvalidAccountData,
    IncorrectProgramId,
    MissingRequiredSignature,
    UninitializedAccount,
    NotEnoughAccountKeys,
    Outside(u64),
}

} // verus!
