//! Grow-only counters.

use crate::actor::Actor;
use crate::crdt::{CmRDT, CvRDT};
use crate::dot::Dot;
use crate::model::{join, pairs_map, raise, stored, sum_of, total, zeroes};
use crate::model::{lemma_lists_sum, lemma_sum_of_take};
use crate::vclock::VClock;
use vstd::prelude::*;
use vstd::std_specs::convert::FromSpecImpl;

verus! {

/// A counter that only grows: each actor counts its own events, and the
/// counter's value is the sum over the actors. Its view is the map from the
/// actors it holds to their counts.
#[derive(Debug)]
pub struct GCounter<A: Actor> {
    counters: VClock<A>,
}

impl<A: Actor> View for GCounter<A> {
    type V = Map<A, u64>;

    closed spec fn view(&self) -> Map<A, u64> {
        self.counters@
    }
}

impl<A: Actor> GCounter<A> {
    /// The counter that holds no actor; its value is zero.
    pub fn new() -> (r: Self)
        ensures
            r@ == Map::<A, u64>::empty(),
    {
        GCounter { counters: VClock::new() }
    }

    /// The counter in which each of `actors` stands at zero.
    pub fn from_iter(actors: Vec<A>) -> (r: Self)
        ensures
            r@ == zeroes(actors@),
    {
        GCounter { counters: VClock::from_iter(actors) }
    }

    /// The counter that holds `pairs`; of two pairs of one actor the later
    /// one counts.
    pub fn from_pairs(pairs: Vec<(A, u64)>) -> (r: Self)
        ensures
            r@ == pairs_map(pairs@),
    {
        GCounter { counters: VClock::from_pairs(pairs) }
    }

    /// The clock that holds the counts.
    pub fn counters(&self) -> (r: &VClock<A>)
        ensures
            r@ == self@,
    {
        &self.counters
    }

    /// The number of actors that the counter holds.
    pub fn len(&self) -> (r: usize)
        ensures
            r == self@.len(),
    {
        self.counters.len()
    }

    /// Whether the counter holds no actor.
    pub fn is_empty(&self) -> (r: bool)
        ensures
            r == (self@.len() == 0),
    {
        self.counters.is_empty()
    }

    /// A counter holds finitely many actors.
    pub proof fn lemma_finite(&self)
        ensures
            self@.dom().finite(),
    {
        self.counters.lemma_finite();
    }

    /// Raises the count of the dot's actor to the dot's counter where that is
    /// further on.
    pub fn merge_dot(&mut self, dot: Dot<A>)
        ensures
            final(self)@ == raise(old(self)@, dot),
    {
        self.apply_op(dot);
    }

    /// Counts one more event of `actor`.
    pub fn incr_assign(&mut self, actor: &A)
        requires
            stored(old(self)@, *actor) < u64::MAX,
        ensures
            final(self)@ == old(self)@.insert(*actor, (stored(old(self)@, *actor) + 1) as u64),
    {
        self.counters.incr_assign(actor);
    }

    /// The value of the counter: the sum of the counts of all actors.
    pub fn value(&self) -> (r: u64)
        requires
            total(self@) <= u64::MAX,
        ensures
            r == total(self@),
    {
        let v = self.counters.iter();
        proof {
            lemma_lists_sum(v@, self@);
        }
        let mut acc: u64 = 0;
        let mut i: usize = 0;
        while i < v.len()
            invariant
                i <= v.len(),
                sum_of(v@) <= u64::MAX,
                acc == sum_of(v@.take(i as int)),
            decreases v.len() - i,
        {
            proof {
                lemma_sum_of_take(v@, i + 1);
                assert(v@.take(i + 1).drop_last() =~= v@.take(i as int));
            }
            acc = acc + v[i].counter;
            i = i + 1;
        }
        proof {
            assert(v@.take(i as int) =~= v@);
        }
        acc
    }
}

impl<A: Actor> GCounter<A> {
    /// The value of the counter where it fits a `u64`; `None` where it does
    /// not.
    pub fn checked_value(&self) -> (r: Option<u64>)
        ensures
            total(self@) <= u64::MAX ==> r == Some(total(self@) as u64),
            total(self@) > u64::MAX ==> r is None,
    {
        let v = self.counters.iter();
        proof {
            lemma_lists_sum(v@, self@);
        }
        let mut acc: u64 = 0;
        let mut i: usize = 0;
        while i < v.len()
            invariant
                i <= v.len(),
                sum_of(v@) == total(self@),
                acc == sum_of(v@.take(i as int)),
            decreases v.len() - i,
        {
            proof {
                lemma_sum_of_take(v@, i + 1);
                assert(v@.take(i + 1).drop_last() =~= v@.take(i as int));
            }
            if v[i].counter > u64::MAX - acc {
                return None;
            }
            acc = acc + v[i].counter;
            i = i + 1;
        }
        proof {
            assert(v@.take(i as int) =~= v@);
        }
        Some(acc)
    }
}

impl<A: Actor> CmRDT for GCounter<A> {
    type Op = Dot<A>;

    /// A counter takes any dot.
    open spec fn accepts(&self, op: &Dot<A>) -> bool {
        true
    }

    /// Raises the count of the dot's actor to the dot's counter where that is
    /// strictly further on; any other dot changes nothing.
    fn apply_op(&mut self, op: Dot<A>)
        ensures
            final(self)@ == raise(old(self)@, op),
    {
        self.counters.apply_op(op);
    }
}

impl<A: Actor> CvRDT for GCounter<A> {
    /// Joins the counter with `other`: each actor ends at the larger of its
    /// two counts.
    fn merge(&mut self, other: Self)
        ensures
            final(self)@ == join(old(self)@, other@),
    {
        self.counters.merge(other.counters);
    }
}

impl<A: Actor> FromSpecImpl<Vec<(A, u64)>> for GCounter<A> {
    open spec fn obeys_from_spec() -> bool {
        false
    }

    open spec fn from_spec(pairs: Vec<(A, u64)>) -> Self {
        arbitrary()
    }
}

impl<A: Actor> From<Vec<(A, u64)>> for GCounter<A> {
    /// The counter that holds `pairs`; of two pairs of one actor the later
    /// one counts.
    fn from(pairs: Vec<(A, u64)>) -> (r: Self)
        ensures
            r@ == pairs_map(pairs@),
    {
        GCounter::from_pairs(pairs)
    }
}

impl<A: Actor> Default for GCounter<A> {
    /// The counter that holds no actor.
    fn default() -> (r: Self)
        ensures
            r@ == Map::<A, u64>::empty(),
    {
        GCounter::new()
    }
}

} // verus!
