//! The error classes a step of the protocol can surface. Every failure aborts
//! the remaining steps; nothing is retried.

use vstd::prelude::*;

verus! {

/// Why a protocol step was rejected.
#[derive(Clone, Copy, Debug, PartialEq, Eq, Structural)]
pub enum TokenError {
    /// A step's precondition on prior extension or finalization state is
    /// unmet: an extension declared twice or after finalization, a mint
    /// finalized twice, or metadata written before finalization.
    OrderingViolation,
    /// The signer is not the recorded authority, or the destination holding
    /// account cannot be resolved as one of this mint.
    AuthorizationFailure,
    /// The metadata payload exceeds the space reserved in the account.
    CapacityFailure,
    /// Issuance was invoked against a mint whose single unit is already out.
    DuplicateIssuance,
    /// The metadata write named a location other than the one the metadata
    /// pointer records.
    PointerMismatch,
    /// A transfer touched a balance of a mint that carries the
    /// non-transferable restriction.
    TransferForbidden,
    /// A transfer asked for more units than the source account holds.
    InsufficientBalance,
}

/// Why the instruction sequence for the ledger could not be built.
#[derive(Clone, Copy, Debug, PartialEq, Eq, Structural)]
pub enum BuildError {
    /// The program handle is not the token program these instructions target.
    UnsupportedTokenProgram,
    /// An address that must name a real account was the all-zero address.
    ZeroAddress,
}

} // verus!
