//! Account addresses as the protocol logic reads them: 32 bytes of identity,
//! held as two 128-bit halves so that equality is plain value equality.

use vstd::prelude::*;

verus! {

/// A ledger account address. The protocol only compares addresses for
/// identity; the 32 bytes are carried as the big-endian high and low halves.
#[derive(Clone, Copy, Debug, PartialEq, Eq, Structural)]
pub struct AccountId {
    pub hi: u128,
    pub lo: u128,
}

impl AccountId {
    /// The all-zero address, which the ledger treats as "no address" and
    /// rejects wherever a real account is expected.
    pub open spec fn is_zero(self) -> bool {
        self.hi == 0 && self.lo == 0
    }
}

} // verus!
