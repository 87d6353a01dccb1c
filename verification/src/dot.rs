//! Dots: one actor's counter, the unit of causal history.

use crate::actor::Actor;
use crate::causal::{causal_of, CausalOrd, CausalOrdering};
use std::cmp::Ordering;
use vstd::prelude::*;
use vstd::std_specs::cmp::{PartialEqSpecImpl, PartialOrdSpecImpl};
use vstd::std_specs::convert::FromSpecImpl;

verus! {

/// An actor paired with a counter: the event numbered `counter` of `actor`.
#[derive(Clone, Copy, Debug, Hash)]
pub struct Dot<A: Actor> {
    /// The actor that produced the event.
    pub actor: A,
    /// The number of the event among those of the actor.
    pub counter: u64,
}

/// The order of two counters.
pub open spec fn counter_order(a: u64, b: u64) -> Ordering {
    if a < b {
        Ordering::Less
    } else if a == b {
        Ordering::Equal
    } else {
        Ordering::Greater
    }
}

impl<A: Actor> Dot<A> {
    /// The dot of `actor` at `counter`.
    pub fn new(actor: A, counter: u64) -> (r: Self)
        ensures
            r == (Dot { actor, counter }),
    {
        Dot { actor, counter }
    }

    /// The dot of an actor that has produced no event yet.
    pub fn new_zero(actor: A) -> (r: Self)
        ensures
            r == (Dot { actor, counter: 0 }),
    {
        Dot { actor, counter: 0 }
    }

    /// The dot of an actor's first event.
    pub fn new_one(actor: A) -> (r: Self)
        ensures
            r == (Dot { actor, counter: 1 }),
    {
        Dot { actor, counter: 1 }
    }

    /// The dot of the same actor at `counter`.
    pub fn upd(&self, counter: u64) -> (r: Self)
        ensures
            r == (Dot { actor: self.actor, counter }),
    {
        Dot { actor: self.actor, counter }
    }

    /// The dot of the actor's next event.
    pub fn incr(&self) -> (r: Self)
        requires
            self.counter < u64::MAX,
        ensures
            r.actor == self.actor,
            r.counter == self.counter + 1,
    {
        self.step(1)
    }

    /// The dot `s` events further on.
    pub fn step(&self, s: u64) -> (r: Self)
        requires
            self.counter + s <= u64::MAX,
        ensures
            r.actor == self.actor,
            r.counter == self.counter + s,
    {
        Dot { actor: self.actor, counter: self.counter + s }
    }

    /// Moves this dot to the actor's next event.
    pub fn apply_inc_op(&mut self)
        requires
            old(self).counter < u64::MAX,
        ensures
            final(self).actor == old(self).actor,
            final(self).counter == old(self).counter + 1,
    {
        self.apply_step_op(1);
    }

    /// Moves this dot `s` events further on.
    pub fn apply_step_op(&mut self, s: u64)
        requires
            old(self).counter + s <= u64::MAX,
        ensures
            final(self).actor == old(self).actor,
            final(self).counter == old(self).counter + s,
    {
        self.counter = self.counter + s;
    }

    /// Raises the counter to `counter` where that is further on.
    pub fn join_counter(&mut self, counter: u64)
        ensures
            final(self).actor == old(self).actor,
            final(self).counter == if old(self).counter < counter {
                counter
            } else {
                old(self).counter
            },
    {
        if self.counter < counter {
            self.counter = counter;
        }
    }

    /// Raises the counter to that of `other` where `other` is a later dot of
    /// the same actor; a dot of another actor changes nothing.
    pub fn join(&mut self, other: Dot<A>)
        ensures
            final(self).actor == old(self).actor,
            final(self).counter == if old(self).actor == other.actor && old(self).counter
                < other.counter {
                other.counter
            } else {
                old(self).counter
            },
    {
        proof {
            A::lawful();
            reveal(vstd::laws_eq::obeys_concrete_eq);
        }
        if self.actor == other.actor && self.counter < other.counter {
            self.counter = other.counter;
        }
    }

    /// The partial order of dots: that of the counters between dots of one
    /// actor, none between dots of two actors.
    pub open spec fn order(self, other: Self) -> Option<Ordering> {
        if self.actor == other.actor {
            Some(counter_order(self.counter, other.counter))
        } else {
            None
        }
    }

    /// The causal relation of `self` to `other`.
    pub open spec fn relation(self, other: Self) -> CausalOrdering {
        causal_of(self.order(other))
    }

    /// Whether `self` succeeds `other` or is the same dot: both are of one
    /// actor, and `self` is at or beyond `other`.
    pub open spec fn descends_from(self, other: Self) -> bool {
        self.actor == other.actor && self.counter >= other.counter
    }
}

impl<A: Actor> PartialEqSpecImpl for Dot<A> {
    open spec fn obeys_eq_spec() -> bool {
        true
    }

    open spec fn eq_spec(&self, other: &Self) -> bool {
        self.actor == other.actor && self.counter == other.counter
    }
}

impl<A: Actor> PartialEq for Dot<A> {
    /// Two dots are equal when actor and counter both are.
    fn eq(&self, other: &Self) -> (r: bool) {
        proof {
            A::lawful();
            reveal(vstd::laws_eq::obeys_concrete_eq);
        }
        self.actor == other.actor && self.counter == other.counter
    }
}

impl<A: Actor> PartialOrdSpecImpl for Dot<A> {
    open spec fn obeys_partial_cmp_spec() -> bool {
        true
    }

    open spec fn partial_cmp_spec(&self, other: &Self) -> Option<Ordering> {
        self.order(*other)
    }
}

impl<A: Actor> PartialOrd for Dot<A> {
    /// Dots of one actor are ordered by their counters; dots of two actors
    /// are not ordered.
    fn partial_cmp(&self, other: &Self) -> (r: Option<Ordering>) {
        proof {
            A::lawful();
            reveal(vstd::laws_eq::obeys_concrete_eq);
        }
        if self.actor == other.actor {
            if self.counter < other.counter {
                Some(Ordering::Less)
            } else if self.counter == other.counter {
                Some(Ordering::Equal)
            } else {
                Some(Ordering::Greater)
            }
        } else {
            None
        }
    }
}

impl<A: Actor> CausalOrd for Dot<A> {

}

/// A dot is causally equal to itself.
pub proof fn lemma_dot_equal_to_itself<A: Actor>(d: Dot<A>)
    ensures
        d.relation(d) == CausalOrdering::Equal,
{
}

/// A dot precedes the dot of the same actor's next event, and that dot
/// succeeds it.
pub proof fn lemma_dot_next_succeeds<A: Actor>(d: Dot<A>, next: Dot<A>)
    requires
        next.actor == d.actor,
        next.counter == d.counter + 1,
    ensures
        next.relation(d) == CausalOrdering::Succeed,
        d.relation(next) == CausalOrdering::Precede,
{
}

/// Dots of two different actors are concurrent, whatever their counters.
pub proof fn lemma_dots_of_two_actors_concurrent<A: Actor>(d: Dot<A>, e: Dot<A>)
    requires
        d.actor != e.actor,
    ensures
        d.relation(e) == CausalOrdering::Concurrent,
        e.relation(d) == CausalOrdering::Concurrent,
{
}

/// A dot descends from another exactly when it succeeds it or equals it.
pub proof fn lemma_dot_descends<A: Actor>(d: Dot<A>, e: Dot<A>)
    ensures
        d.descends_from(e) <==> (d.relation(e) == CausalOrdering::Succeed || d.relation(e)
            == CausalOrdering::Equal),
{
}

/// Two dots are concurrent exactly when their actors differ: dots of one
/// actor are always ordered.
pub proof fn lemma_dots_concurrent_iff_actors_differ<A: Actor>(d: Dot<A>, e: Dot<A>)
    ensures
        d.relation(e) == CausalOrdering::Concurrent <==> d.actor != e.actor,
{
}

impl<A: Actor> FromSpecImpl<(A, u64)> for Dot<A> {
    open spec fn obeys_from_spec() -> bool {
        true
    }

    open spec fn from_spec(pair: (A, u64)) -> Self {
        Dot { actor: pair.0, counter: pair.1 }
    }
}

impl<A: Actor> From<(A, u64)> for Dot<A> {
    /// The dot of the pair's actor at the pair's counter.
    fn from(pair: (A, u64)) -> (r: Self) {
        Dot { actor: pair.0, counter: pair.1 }
    }
}

impl<A: Actor> FromSpecImpl<A> for Dot<A> {
    open spec fn obeys_from_spec() -> bool {
        true
    }

    open spec fn from_spec(actor: A) -> Self {
        Dot { actor, counter: 0 }
    }
}

impl<A: Actor> From<A> for Dot<A> {
    /// The dot of an actor that has produced no event yet.
    fn from(actor: A) -> (r: Self) {
        Dot { actor, counter: 0 }
    }
}

} // verus!
