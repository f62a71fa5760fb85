//! Errors returned by the guards and the account lifecycle.
use vstd::prelude::*;

verus! {

/// A program failure, as reported back to the host.
#[derive(Debug, Clone, Copy, PartialEq, Eq, Structural)]
pub enum ProgramError {
    /// A program-specific failure code.
    Custom(u32),
    /// An account's data contents were invalid.
    InvalidAccountData,
    /// A signature was required but not found.
    MissingRequiredSignature,
    /// An operation on an account that has not been initialized.
    UninitializedAccount,
    /// A seed is longer than allowed for address derivation.
    MaxSeedLengthExceeded,
    /// More seeds than allowed for address derivation.
    MaxSeedsExceeded,
    /// The seeds do not give a valid program address.
    InvalidSeeds,
    /// The account already has a structural change in this transaction.
    InvalidStateTransition,
    /// Any other failure of the host runtime.
    Other,
}

} // verus!
