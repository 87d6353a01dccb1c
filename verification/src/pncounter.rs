//! Counters that count up and down.

use crate::actor::Actor;
use crate::crdt::{CmRDT, CvRDT};
use crate::dot::Dot;
use crate::gcounter::GCounter;
use crate::model::{join, pairs_map, raise, stored, total, zeroes};
use vstd::prelude::*;
use vstd::std_specs::convert::FromSpecImpl;

verus! {

/// A counter that counts up and down: a pair of growing counters, one for
/// the increments and one for the decrements. Its value is the difference of
/// the two and may be negative.
#[derive(Debug)]
pub struct PnCounter<A: Actor> {
    increments: GCounter<A>,
    decrements: GCounter<A>,
}

/// What replicas of a `PnCounter` exchange.
#[derive(Debug)]
pub enum PnCounterOp<A: Actor> {
    /// The actor of the dot has counted up to the dot's counter.
    Incr(Dot<A>),
    /// The actor of the dot has counted down to the dot's counter.
    Decr(Dot<A>),
}

/// The state of a `PnCounter`: what each actor has counted up and down.
#[verifier::reject_recursive_types(A)]
#[verifier::ext_equal]
pub struct PnState<A> {
    /// What each actor has counted up.
    pub increments: Map<A, u64>,
    /// What each actor has counted down.
    pub decrements: Map<A, u64>,
}

/// The join of two states: that of the increments and that of the
/// decrements.
pub open spec fn pn_join<A>(s: PnState<A>, o: PnState<A>) -> PnState<A> {
    PnState {
        increments: join(s.increments, o.increments),
        decrements: join(s.decrements, o.decrements),
    }
}

/// The state after it has seen `op`.
pub open spec fn pn_raise<A: Actor>(s: PnState<A>, op: PnCounterOp<A>) -> PnState<A> {
    match op {
        PnCounterOp::Incr(d) => PnState {
            increments: raise(s.increments, d),
            decrements: s.decrements,
        },
        PnCounterOp::Decr(d) => PnState {
            increments: s.increments,
            decrements: raise(s.decrements, d),
        },
    }
}

/// The value of a state: what has been counted up less what has been counted
/// down.
pub open spec fn pn_value<A>(s: PnState<A>) -> int {
    total(s.increments) - total(s.decrements)
}

impl<A: Actor> View for PnCounter<A> {
    type V = PnState<A>;

    closed spec fn view(&self) -> PnState<A> {
        PnState { increments: self.increments@, decrements: self.decrements@ }
    }
}

impl<A: Actor> PnCounter<A> {
    /// The counter that holds no actor; its value is zero.
    pub fn new() -> (r: Self)
        ensures
            r@.increments == Map::<A, u64>::empty(),
            r@.decrements == Map::<A, u64>::empty(),
    {
        PnCounter { increments: GCounter::new(), decrements: GCounter::new() }
    }

    /// The counter in which each of `actors` has counted up to zero and
    /// nobody has counted down.
    pub fn from_iter(actors: Vec<A>) -> (r: Self)
        ensures
            r@.increments == zeroes(actors@),
            r@.decrements == Map::<A, u64>::empty(),
    {
        PnCounter { increments: GCounter::from_iter(actors), decrements: GCounter::new() }
    }

    /// The counter whose increments are `pairs` and in which nobody has
    /// counted down.
    pub fn from_pairs(pairs: Vec<(A, u64)>) -> (r: Self)
        ensures
            r@.increments == pairs_map(pairs@),
            r@.decrements == Map::<A, u64>::empty(),
    {
        PnCounter { increments: GCounter::from_pairs(pairs), decrements: GCounter::new() }
    }

    /// What each actor has counted up.
    pub fn increments(&self) -> (r: &GCounter<A>)
        ensures
            r@ == self@.increments,
    {
        &self.increments
    }

    /// What each actor has counted down.
    pub fn decrements(&self) -> (r: &GCounter<A>)
        ensures
            r@ == self@.decrements,
    {
        &self.decrements
    }

    /// A counter holds finitely many actors.
    pub proof fn lemma_finite(&self)
        ensures
            self@.increments.dom().finite(),
            self@.decrements.dom().finite(),
    {
        self.increments.lemma_finite();
        self.decrements.lemma_finite();
    }

    /// The value of the counter: what has been counted up less what has been
    /// counted down.
    pub fn value(&self) -> (r: i128)
        requires
            total(self@.increments) <= u64::MAX,
            total(self@.decrements) <= u64::MAX,
        ensures
            r == pn_value(self@),
    {
        let up = self.increments.value();
        let down = self.decrements.value();
        up as i128 - down as i128
    }

    /// The value of the counter where what has been counted up and what has
    /// been counted down each fit a `u64`; `None` where one of them does not.
    pub fn checked_value(&self) -> (r: Option<i128>)
        ensures
            total(self@.increments) <= u64::MAX && total(self@.decrements) <= u64::MAX ==> r
                == Some(pn_value(self@) as i128),
            total(self@.increments) > u64::MAX || total(self@.decrements) > u64::MAX ==> r
                is None,
    {
        match (self.increments.checked_value(), self.decrements.checked_value()) {
            (Some(up), Some(down)) => Some(up as i128 - down as i128),
            _ => None,
        }
    }

    /// Counts `actor` up by `s`.
    pub fn step_up(&mut self, actor: &A, s: u64)
        requires
            stored(old(self)@.increments, *actor) + s <= u64::MAX,
        ensures
            final(self)@.increments == raise(
                old(self)@.increments,
                Dot { actor: *actor, counter: (stored(old(self)@.increments, *actor) + s) as u64 },
            ),
            final(self)@.decrements == old(self)@.decrements,
    {
        let dot = self.increments.counters().dot(actor).step(s);
        self.increments.apply_op(dot);
    }

    /// Counts `actor` up by one.
    pub fn incr(&mut self, actor: &A)
        requires
            stored(old(self)@.increments, *actor) < u64::MAX,
        ensures
            final(self)@.increments == old(self)@.increments.insert(
                *actor,
                (stored(old(self)@.increments, *actor) + 1) as u64,
            ),
            final(self)@.decrements == old(self)@.decrements,
    {
        self.step_up(actor, 1);
    }

    /// Counts `actor` down by `s`.
    pub fn step_down(&mut self, actor: &A, s: u64)
        requires
            stored(old(self)@.decrements, *actor) + s <= u64::MAX,
        ensures
            final(self)@.decrements == raise(
                old(self)@.decrements,
                Dot { actor: *actor, counter: (stored(old(self)@.decrements, *actor) + s) as u64 },
            ),
            final(self)@.increments == old(self)@.increments,
    {
        let dot = self.decrements.counters().dot(actor).step(s);
        self.decrements.apply_op(dot);
    }

    /// Counts `actor` down by one.
    pub fn decr(&mut self, actor: &A)
        requires
            stored(old(self)@.decrements, *actor) < u64::MAX,
        ensures
            final(self)@.decrements == old(self)@.decrements.insert(
                *actor,
                (stored(old(self)@.decrements, *actor) + 1) as u64,
            ),
            final(self)@.increments == old(self)@.increments,
    {
        self.step_down(actor, 1);
    }
}

impl<A: Actor> CmRDT for PnCounter<A> {
    type Op = PnCounterOp<A>;

    /// A counter takes any operation.
    open spec fn accepts(&self, op: &PnCounterOp<A>) -> bool {
        true
    }

    /// Takes the dot of `op` into the increments or into the decrements.
    fn apply_op(&mut self, op: PnCounterOp<A>)
        ensures
            final(self)@ == pn_raise(old(self)@, op),
    {
        match op {
            PnCounterOp::Incr(dot) => self.increments.apply_op(dot),
            PnCounterOp::Decr(dot) => self.decrements.apply_op(dot),
        }
    }
}

impl<A: Actor> CvRDT for PnCounter<A> {
    /// Joins the increments with those of `other` and the decrements with
    /// those of `other`.
    fn merge(&mut self, other: Self)
        ensures
            final(self)@ == pn_join(old(self)@, other@),
    {
        self.increments.merge(other.increments);
        self.decrements.merge(other.decrements);
    }
}

impl<A: Actor> FromSpecImpl<Vec<(A, u64)>> for PnCounter<A> {
    open spec fn obeys_from_spec() -> bool {
        false
    }

    open spec fn from_spec(pairs: Vec<(A, u64)>) -> Self {
        arbitrary()
    }
}

impl<A: Actor> From<Vec<(A, u64)>> for PnCounter<A> {
    /// The counter whose increments are `pairs` and in which nobody has
    /// counted down.
    fn from(pairs: Vec<(A, u64)>) -> (r: Self)
        ensures
            r@.increments == pairs_map(pairs@),
            r@.decrements == Map::<A, u64>::empty(),
    {
        PnCounter::from_pairs(pairs)
    }
}

impl<A: Actor> Default for PnCounter<A> {
    /// The counter that holds no actor.
    fn default() -> (r: Self)
        ensures
            r@.increments == Map::<A, u64>::empty(),
            r@.decrements == Map::<A, u64>::empty(),
    {
        PnCounter::new()
    }
}

} // verus!
