//! The escrow program's error taxonomy.

use vstd::prelude::*;

verus! {

/// Every failure of the processor is reported as exactly one of these kinds;
/// no path returns a generic or unspecified failure.
#[derive(Clone, Copy, Debug, PartialEq, Eq)]
pub enum EscrowError {
    /// The instruction buffer has an unknown tag or a truncated or oversized
    /// payload, or an `InitEscrow` asked for a zero expected amount.
    InvalidInstruction,
    /// The escrow record's storage is not funded to the host's rent-exemption
    /// threshold.
    NotRentExempt,
    /// The amount supplied to `Exchange` differs from the record's expected
    /// amount.
    ExpectedAmountMismatch,
    /// The instruction was not authorized by the role-appropriate party.
    AuthorityMismatch,
    /// The escrow record is absent, malformed, or not in the lifecycle state
    /// the instruction requires.
    InvalidState,
    /// The custody account is not owned by the program's derived authority.
    InvalidOwner,
    /// `InitEscrow` was applied to a record that is already initialized.
    AlreadyInitialized,
}

impl EscrowError {
    /// The distinct numeric code under which this kind is surfaced to the
    /// caller.
    pub open spec fn spec_code(self) -> u32 {
        match self {
            EscrowError::InvalidInstruction => 0,
            EscrowError::NotRentExempt => 1,
            EscrowError::ExpectedAmountMismatch => 2,
            EscrowError::AuthorityMismatch => 3,
            EscrowError::InvalidState => 4,
            EscrowError::InvalidOwner => 5,
            EscrowError::AlreadyInitialized => 6,
        }
    }

    /// Returns this kind's numeric code.
    pub fn code(&self) -> (c: u32)
        ensures
            c == self.spec_code(),
    {
        match self {
            EscrowError::InvalidInstruction => 0,
            EscrowError::NotRentExempt => 1,
            EscrowError::ExpectedAmountMismatch => 2,
            EscrowError::AuthorityMismatch => 3,
            EscrowError::InvalidState => 4,
            EscrowError::InvalidOwner => 5,
            EscrowError::AlreadyInitialized => 6,
        }
    }
}

} // verus!
