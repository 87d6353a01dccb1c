//! Causal order: the four-way relation between two histories.

use std::cmp::Ordering;
use vstd::prelude::*;
use vstd::std_specs::cmp::PartialOrdSpec;

verus! {

/// How one history stands to another.
#[derive(Clone, Copy, Debug, PartialEq, Eq, Structural)]
pub enum CausalOrdering {
    /// The first happened before the second.
    Precede,
    /// Both are the same history.
    Equal,
    /// The first happened after the second.
    Succeed,
    /// Neither happened before the other.
    Concurrent,
}

/// The causal relation that a partial comparison stands for.
pub open spec fn causal_of(o: Option<Ordering>) -> CausalOrdering {
    match o {
        Some(Ordering::Equal) => CausalOrdering::Equal,
        Some(Ordering::Less) => CausalOrdering::Precede,
        Some(Ordering::Greater) => CausalOrdering::Succeed,
        None => CausalOrdering::Concurrent,
    }
}

/// Values that can be compared for causal order. The relation is read off the
/// type's partial order; a type only has to provide `partial_cmp`.
pub trait CausalOrd: PartialOrd + Sized {
    /// The causal relation between `self` and `other`.
    fn causal_cmp(&self, other: &Self) -> (r: CausalOrdering)
        ensures
            Self::obeys_partial_cmp_spec() ==> r == causal_of(self.partial_cmp_spec(other)),
    {
        match self.partial_cmp(other) {
            Some(Ordering::Equal) => CausalOrdering::Equal,
            Some(Ordering::Less) => CausalOrdering::Precede,
            Some(Ordering::Greater) => CausalOrdering::Succeed,
            None => CausalOrdering::Concurrent,
        }
    }

    /// Whether `self` strictly succeeds `other`.
    fn dominates(&self, other: &Self) -> (r: bool)
        ensures
            Self::obeys_partial_cmp_spec() ==> r == (causal_of(self.partial_cmp_spec(other))
                == CausalOrdering::Succeed),
    {
        matches!(self.causal_cmp(other), CausalOrdering::Succeed)
    }

    /// Whether `self` succeeds `other` or is the same history.
    fn descends(&self, other: &Self) -> (r: bool)
        ensures
            Self::obeys_partial_cmp_spec() ==> r == (causal_of(self.partial_cmp_spec(other))
                == CausalOrdering::Succeed || causal_of(self.partial_cmp_spec(other))
                == CausalOrdering::Equal),
    {
        matches!(self.causal_cmp(other), CausalOrdering::Succeed | CausalOrdering::Equal)
    }

    /// Whether neither of `self` and `other` happened before the other.
    fn concurrent(&self, other: &Self) -> (r: bool)
        ensures
            Self::obeys_partial_cmp_spec() ==> r == (causal_of(self.partial_cmp_spec(other))
                == CausalOrdering::Concurrent),
    {
        matches!(self.causal_cmp(other), CausalOrdering::Concurrent)
    }
}

} // verus!
