//! The shielded pool contract's entry points.

use vstd::prelude::*;

verus! {

/// The shielded pool contract.
pub struct ShieldedPool;

impl ShieldedPool {
    /// Placeholder: deposit funds into the shielded pool. Does nothing yet.
    pub fn deposit(_amount: i128) {
    }

    /// Placeholder: withdraw funds from the shielded pool. Does nothing yet.
    pub fn withdraw(_amount: i128) {
    }
}

} // verus!
