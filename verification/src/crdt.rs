//! The two disciplines of replication.

use vstd::prelude::*;

verus! {

/// A replicated value that converges by exchanging single operations.
/// Operations may arrive more than once and in any order.
pub trait CmRDT {
    /// The operation that replicas exchange.
    type Op;

    /// Whether `op` can be applied to `self`: what applying it counts up
    /// stays within the range of a counter.
    spec fn accepts(&self, op: &Self::Op) -> bool;

    /// Applies `op` to this replica.
    fn apply_op(&mut self, op: Self::Op)
        requires
            old(self).accepts(&op),
    ;
}

/// A replicated value that converges by exchanging whole states.
pub trait CvRDT: Sized {
    /// Takes the state of `other` into this replica.
    fn merge(&mut self, other: Self);
}

} // verus!
