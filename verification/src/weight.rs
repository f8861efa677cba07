//! Two-dimensional execution budgets.

use vstd::prelude::*;

verus! {

/// An execution budget: computation time and storage-proof size.
#[derive(Clone, Copy, Debug, PartialEq, Eq)]
pub struct Weight {
    /// Computation time budget.
    pub ref_time: u64,
    /// Storage / proof size budget.
    pub proof_size: u64,
}

impl Weight {
    /// Build a weight from its two components, kept exactly.
    pub fn from_parts(ref_time: u64, proof_size: u64) -> (w: Weight)
        ensures
            w.ref_time == ref_time,
            w.proof_size == proof_size,
    {
        Weight { ref_time, proof_size }
    }
}

/// A ceiling on how much weight an execution purchase may consume:
/// either a concrete budget or the unlimited marker.
#[derive(Clone, Copy, Debug, PartialEq, Eq)]
pub enum WeightLimit {
    /// No ceiling: the purchase may consume whatever the paid fee covers.
    Unlimited,
    /// A concrete two-dimensional ceiling.
    Limited(Weight),
}

} // verus!
