//! Failure reasons. Every operation checks its preconditions before any
//! mutation; the first violated precondition aborts the whole operation
//! with no state change.

use vstd::prelude::*;

verus! {

/// The program's own error taxonomy.
#[derive(Clone, Copy, Debug, PartialEq, Eq, Structural)]
pub enum FrancoError {
    /// Caller is not the identity the operation requires.
    Unauthorized,
    /// Country code exceeds the maximum byte length.
    CountryTooLong,
    /// Settlement amount is zero.
    InvalidAmount,
    /// Reference is empty where a non-empty reference is required.
    InvalidReference,
    /// Settlement names a frozen participant.
    StudentFrozen,
    /// A volume counter update would overflow.
    MathOverflow,
    /// Fee is above the basis-point bound.
    InvalidFeeBps,
    /// Token descriptor does not match the treasury's.
    InvalidMint,
    /// Custodial pool account does not match the treasury's.
    InvalidTreasuryTokenAccount,
    /// Named participant account does not belong to the named owner.
    InvalidStudentOwner,
    /// Reference exceeds the maximum byte length.
    ReferenceTooLong,
    /// Claimed digest does not match the recomputed digest of the reference.
    ReferenceHashMismatch,
}

/// What an operation can report: either one of the program's own errors, or
/// a rejection by the keyed storage layer (create-if-absent collision, or a
/// lookup of an account that was never created).
#[derive(Clone, Copy, Debug, PartialEq, Eq, Structural)]
pub enum LedgerError {
    /// A precondition of the program itself failed.
    Franco(FrancoError),
    /// Create-if-absent found the key already taken.
    AccountAlreadyInUse,
    /// A required account does not exist.
    AccountNotInitialized,
}

} // verus!
