//! Vector clocks: for each actor the highest counter seen of it.

use crate::actor::{lemma_goes_up, lemma_less_differs, Actor};
use crate::causal::CausalOrd;
use crate::crdt::{CmRDT, CvRDT};
use crate::dot::Dot;
use crate::model::lemma_raise_all_is_join;
use crate::model::{
    ascending, clock_order, covers, join, lists, pairs_map, raise, raise_all, stored, zeroes,
};
use std::cmp::Ordering;
use std::collections::BTreeMap;
use vstd::prelude::*;
use vstd::std_specs::btree::increasing_seq;
use vstd::std_specs::cmp::{OrdSpec, PartialEqSpecImpl, PartialOrdSpecImpl};
use vstd::std_specs::convert::FromSpecImpl;

verus! {

/// A vector clock. Its view is the map from the actors it holds to their
/// counters; an actor that it does not hold stands at zero.
#[derive(Debug)]
pub struct VClock<A: Actor> {
    dots: BTreeMap<A, u64>,
}

impl<A: Actor> View for VClock<A> {
    type V = Map<A, u64>;

    closed spec fn view(&self) -> Map<A, u64> {
        self.dots@
    }
}

impl<A: Actor> VClock<A> {
    /// The clock that holds no actor.
    pub fn new() -> (r: Self)
        ensures
            r@ == Map::<A, u64>::empty(),
    {
        VClock { dots: BTreeMap::new() }
    }

    /// Whether the clock holds no actor.
    pub fn is_empty(&self) -> (r: bool)
        ensures
            r == (self@.len() == 0),
    {
        proof {
            A::lawful();
            self.lemma_finite();
        }
        self.dots.len() == 0
    }

    /// The number of actors that the clock holds.
    pub fn len(&self) -> (r: usize)
        ensures
            r == self@.len(),
    {
        proof {
            A::lawful();
        }
        self.dots.len()
    }

    /// A clock holds finitely many actors.
    pub proof fn lemma_finite(&self)
        ensures
            self@.dom().finite(),
    {
    }

    /// The counter of `actor`: zero where the clock does not hold it.
    pub fn counter(&self, actor: &A) -> (r: u64)
        ensures
            r == stored(self@, *actor),
    {
        proof {
            A::lawful();
        }
        match self.dots.get(actor) {
            Some(c) => *c,
            None => 0,
        }
    }

    /// The dot of `actor` at the counter that the clock holds for it.
    pub fn dot(&self, actor: &A) -> (r: Dot<A>)
        ensures
            r == (Dot { actor: *actor, counter: stored(self@, *actor) }),
    {
        let counter = self.counter(actor);
        Dot::new(*actor, counter)
    }

    /// The dots of the clock, one for each actor that it holds, in the order
    /// of the actors.
    pub fn iter(&self) -> (r: Vec<Dot<A>>)
        ensures
            lists(r@, self@),
            ascending(r@),
    {
        proof {
            A::lawful();
        }
        let mut out: Vec<Dot<A>> = Vec::new();
        for kv in it: self.dots.iter()
            invariant
                out@.len() == it.index(),
                increasing_seq(it.seq().map_values(|kv: (&A, &u64)| *kv.0)),
                forall|k: A| #[trigger]
                    self.dots@.contains_key(k) ==> exists|i: int|
                        0 <= i < it.seq().len() && *(#[trigger] it.seq()[i]).0 == k,
                forall|i: int|
                    #![trigger out@[i]]
                    #![trigger it.seq()[i]]
                    0 <= i < out@.len() ==> out@[i].actor == *it.seq()[i].0 && out@[i].counter
                        == *it.seq()[i].1,
                forall|i: int|
                    0 <= i < out@.len() ==> self.dots@.contains_key((#[trigger] out@[i]).actor)
                        && self.dots@[out@[i].actor] == out@[i].counter,
                ascending(out@),
        {
            let (a, c) = kv;
            proof {
                assert(it.seq()[it.index()] == kv);
                assert(self.dots@.contains_key(*a) && self.dots@[*a] == *c);
                assert forall|i: int| 0 <= i < it.index() implies (#[trigger] out@[i]).actor.cmp_spec(
                    a,
                ) == Ordering::Less by {
                    assert(it.seq().map_values(|kv: (&A, &u64)| *kv.0)[i] == out@[i].actor);
                    assert(it.seq().map_values(|kv: (&A, &u64)| *kv.0)[it.index()] == *a);
                    lemma_goes_up(
                        it.seq().map_values(|kv: (&A, &u64)| *kv.0),
                        i,
                        it.index(),
                    );
                }
            }
            out.push(Dot { actor: *a, counter: *c });
        }
        proof {
            assert forall|i: int, j: int| 0 <= i < j < out@.len() implies (
            #[trigger] out@[i]).actor != (#[trigger] out@[j]).actor by {
                lemma_less_differs(out@[i].actor, out@[j].actor);
            }
        }
        out
    }

    /// Whether the clock holds `actor` at exactly `counter`.
    pub fn holds(&self, actor: &A, counter: u64) -> (r: bool)
        ensures
            r == (self@.contains_key(*actor) && self@[*actor] == counter),
    {
        proof {
            A::lawful();
        }
        match self.dots.get(actor) {
            Some(c) => *c == counter,
            None => false,
        }
    }

    /// Whether the clock holds `actor` at `count` or beyond.
    pub fn contains_greater(&self, actor: &A, count: &u64) -> (r: bool)
        ensures
            r == (self@.contains_key(*actor) && self@[*actor] >= *count),
    {
        proof {
            A::lawful();
        }
        match self.dots.get(actor) {
            Some(c) => *c >= *count,
            None => false,
        }
    }

    /// Whether the clock holds `actor` at `count` or behind.
    pub fn contains_less(&self, actor: &A, count: &u64) -> (r: bool)
        ensures
            r == (self@.contains_key(*actor) && self@[*actor] <= *count),
    {
        proof {
            A::lawful();
        }
        match self.dots.get(actor) {
            Some(c) => *c <= *count,
            None => false,
        }
    }

    /// The dot of `actor` at the counter that the clock holds for it, at zero
    /// where the clock does not hold the actor.
    pub fn dot_or_zero(&self, actor: &A) -> (r: Dot<A>)
        ensures
            r == (Dot { actor: *actor, counter: stored(self@, *actor) }),
    {
        self.dot(actor)
    }

    /// The dot of the next event of `actor` after what the clock has seen.
    pub fn dot_incremented(&self, actor: &A) -> (r: Dot<A>)
        requires
            stored(self@, *actor) < u64::MAX,
        ensures
            r.actor == *actor,
            r.counter == stored(self@, *actor) + 1,
    {
        self.dot_or_zero(actor).incr()
    }

    /// Counts the events of `rhs` on top of what the clock holds for its actor.
    pub fn add_assign(&mut self, rhs: Dot<A>)
        requires
            stored(old(self)@, rhs.actor) + rhs.counter <= u64::MAX,
        ensures
            final(self)@ == old(self)@.insert(
                rhs.actor,
                (stored(old(self)@, rhs.actor) + rhs.counter) as u64,
            ),
    {
        proof {
            A::lawful();
        }
        let counter = self.counter(&rhs.actor) + rhs.counter;
        self.dots.insert(rhs.actor, counter);
    }

    /// Counts one more event of `actor`.
    pub fn incr_assign(&mut self, actor: &A)
        requires
            stored(old(self)@, *actor) < u64::MAX,
        ensures
            final(self)@ == old(self)@.insert(*actor, (stored(old(self)@, *actor) + 1) as u64),
    {
        self.add_assign(Dot::new_one(*actor));
    }

    /// The clock in which each of `actors` stands at zero.
    pub fn from_iter(actors: Vec<A>) -> (r: Self)
        ensures
            r@ == zeroes(actors@),
    {
        let mut dots: BTreeMap<A, u64> = BTreeMap::new();
        let mut i: usize = 0;
        while i < actors.len()
            invariant
                i <= actors.len(),
                dots@ =~= zeroes(actors@.take(i as int)),
            decreases actors.len() - i,
        {
            proof {
                A::lawful();
                let t = actors@.take(i as int);
                let u = actors@.take(i + 1);
                assert(u.drop_last() =~= t);
                assert(u.last() == actors@[i as int]);
                assert forall|a: A| u.contains(a) <==> (t.contains(a) || a == actors@[i as int]) by {
                    if t.contains(a) {
                        let k = choose|k: int| 0 <= k < t.len() && t[k] == a;
                        assert(u[k] == a);
                    }
                    if a == actors@[i as int] {
                        assert(u[i as int] == a);
                    }
                }
                assert(zeroes(u) =~= zeroes(t).insert(actors@[i as int], 0u64));
            }
            dots.insert(actors[i], 0);
            i = i + 1;
        }
        proof {
            assert(actors@.take(i as int) =~= actors@);
        }
        VClock { dots }
    }

    /// The clock that holds `pairs`; of two pairs of one actor the later one
    /// counts.
    pub fn from_pairs(pairs: Vec<(A, u64)>) -> (r: Self)
        ensures
            r@ == pairs_map(pairs@),
    {
        let mut dots: BTreeMap<A, u64> = BTreeMap::new();
        let mut i: usize = 0;
        while i < pairs.len()
            invariant
                i <= pairs.len(),
                dots@ == pairs_map(pairs@.take(i as int)),
            decreases pairs.len() - i,
        {
            proof {
                A::lawful();
                assert(pairs@.take(i + 1).drop_last() =~= pairs@.take(i as int));
            }
            dots.insert(pairs[i].0, pairs[i].1);
            i = i + 1;
        }
        proof {
            assert(pairs@.take(i as int) =~= pairs@);
        }
        VClock { dots }
    }

    /// Whether the clock is at or beyond `other` for every actor that `other`
    /// holds.
    pub fn is_at_or_beyond(&self, other: &Self) -> (r: bool)
        ensures
            r == covers(self@, other@),
    {
        let v = other.iter();
        let mut i: usize = 0;
        while i < v.len()
            invariant
                i <= v.len(),
                lists(v@, other@),
                forall|k: int| 0 <= k < i ==> stored(self@, (#[trigger] v@[k]).actor) >= v@[k].counter,
            decreases v.len() - i,
        {
            if self.counter(&v[i].actor) < v[i].counter {
                proof {
                    assert(other@.contains_key(v@[i as int].actor));
                }
                return false;
            }
            i = i + 1;
        }
        proof {
            assert forall|a: A| #[trigger] other@.contains_key(a) implies stored(self@, a)
                >= other@[a] by {
                let k = choose|k: int| 0 <= k < v@.len() && #[trigger] v@[k].actor == a;
                assert(stored(self@, v@[k].actor) >= v@[k].counter);
            }
        }
        true
    }

    /// Whether the clock holds exactly what `other` holds.
    pub fn same_as(&self, other: &Self) -> (r: bool)
        ensures
            r == (self@ == other@),
    {
        if self.len() != other.len() {
            return false;
        }
        let v = other.iter();
        let mut i: usize = 0;
        while i < v.len()
            invariant
                i <= v.len(),
                lists(v@, other@),
                forall|k: int|
                    0 <= k < i ==> self@.contains_key((#[trigger] v@[k]).actor) && self@[v@[k].actor]
                        == v@[k].counter,
            decreases v.len() - i,
        {
            if !self.holds(&v[i].actor, v[i].counter) {
                proof {
                    let a = v@[i as int].actor;
                    assert(other@.contains_key(a) && other@[a] == v@[i as int].counter);
                }
                return false;
            }
            i = i + 1;
        }
        proof {
            assert forall|a: A| #[trigger] other@.contains_key(a) implies self@.contains_key(a)
                && self@[a] == other@[a] by {
                let k = choose|k: int| 0 <= k < v@.len() && #[trigger] v@[k].actor == a;
                assert(self@.contains_key(v@[k].actor));
            }
            assert(other@.dom().subset_of(self@.dom()));
            vstd::set_lib::lemma_subset_equality(other@.dom(), self@.dom());
            assert(self@ =~= other@);
        }
        true
    }
}

impl<A: Actor> CmRDT for VClock<A> {
    type Op = Dot<A>;

    /// A clock takes any dot.
    open spec fn accepts(&self, op: &Dot<A>) -> bool {
        true
    }

    /// Raises the entry of the dot's actor to the dot's counter where that is
    /// strictly further on; a dot at or behind what the clock holds changes
    /// nothing.
    fn apply_op(&mut self, op: Dot<A>)
        ensures
            final(self)@ == raise(old(self)@, op),
    {
        proof {
            A::lawful();
        }
        if self.counter(&op.actor) < op.counter {
            self.dots.insert(op.actor, op.counter);
        }
    }
}

impl<A: Actor> CvRDT for VClock<A> {
    /// Joins the clock with `other`: each actor ends at the larger of its two
    /// counters.
    fn merge(&mut self, other: Self)
        ensures
            final(self)@ == join(old(self)@, other@),
    {
        let v = other.iter();
        let mut i: usize = 0;
        while i < v.len()
            invariant
                i <= v.len(),
                self@ == raise_all(old(self)@, v@.take(i as int)),
            decreases v.len() - i,
        {
            proof {
                assert(v@.take(i + 1).drop_last() =~= v@.take(i as int));
            }
            self.apply_op(v[i]);
            i = i + 1;
        }
        proof {
            assert(v@.take(i as int) =~= v@);
            lemma_raise_all_is_join(old(self)@, v@, other@);
        }
    }
}

impl<A: Actor> PartialEqSpecImpl for VClock<A> {
    open spec fn obeys_eq_spec() -> bool {
        true
    }

    open spec fn eq_spec(&self, other: &Self) -> bool {
        self@ == other@
    }
}

impl<A: Actor> PartialEq for VClock<A> {
    /// Two clocks are equal when they hold the same actors at the same
    /// counters.
    fn eq(&self, other: &Self) -> (r: bool) {
        self.same_as(other)
    }
}

impl<A: Actor> PartialOrdSpecImpl for VClock<A> {
    open spec fn obeys_partial_cmp_spec() -> bool {
        true
    }

    open spec fn partial_cmp_spec(&self, other: &Self) -> Option<Ordering> {
        clock_order(self@, other@)
    }
}

impl<A: Actor> PartialOrd for VClock<A> {
    /// Equal clocks are equal; otherwise a clock that covers the other is
    /// greater, one that the other covers is less, and two clocks of which
    /// each is ahead for some actor are not ordered.
    fn partial_cmp(&self, other: &Self) -> (r: Option<Ordering>) {
        if self.same_as(other) {
            Some(Ordering::Equal)
        } else if self.is_at_or_beyond(other) {
            Some(Ordering::Greater)
        } else if other.is_at_or_beyond(self) {
            Some(Ordering::Less)
        } else {
            None
        }
    }
}

impl<A: Actor> CausalOrd for VClock<A> {

}

/// The dots of a clock, handed out one by one in the order of the actors.
#[derive(Debug)]
pub struct IntoIter<A: Actor> {
    dots: Vec<Dot<A>>,
    at: usize,
}

impl<A: Actor> View for IntoIter<A> {
    type V = Seq<Dot<A>>;

    /// The dots that are still to come.
    closed spec fn view(&self) -> Seq<Dot<A>> {
        self.dots@.skip(self.at as int)
    }
}

impl<A: Actor> IntoIter<A> {
    #[verifier::type_invariant]
    spec fn in_range(self) -> bool {
        self.at <= self.dots.len()
    }

    /// Hands out the next dot; `None` once all have been handed out.
    pub fn next(&mut self) -> (r: Option<Dot<A>>)
        ensures
            old(self)@.len() == 0 ==> r is None && final(self)@ == old(self)@,
            old(self)@.len() > 0 ==> r == Some(old(self)@[0]) && final(self)@ == old(self)@.drop_first(),
    {
        proof {
            use_type_invariant(&*self);
        }
        if self.at < self.dots.len() {
            let d = self.dots[self.at];
            proof {
                assert(self.dots@.skip(self.at as int).drop_first() =~= self.dots@.skip(
                    self.at + 1,
                ));
            }
            self.at = self.at + 1;
            Some(d)
        } else {
            None
        }
    }
}

impl<A: Actor> VClock<A> {
    /// Gives up the clock for its dots, which come in the order of the actors.
    pub fn into_iter(self) -> (r: IntoIter<A>)
        ensures
            lists(r@, self@),
            ascending(r@),
    {
        let dots = self.iter();
        proof {
            assert(dots@.skip(0) =~= dots@);
        }
        IntoIter { dots, at: 0 }
    }
}

/// The counters that a clock has not seen yet between what it holds for an
/// actor and a dot of that actor that runs ahead.
#[derive(Debug)]
pub struct DotRange<A: Actor> {
    /// The actor of the dot.
    pub actor: A,
    /// The first counter that the clock has not seen.
    pub start: u64,
    /// The counter of the dot.
    pub end: u64,
}

impl<A: Actor> VClock<A> {
    /// Whether `dot` is the next event of its actor or an earlier one. A dot
    /// that runs further ahead is answered with the counters in between.
    pub fn validate_op(&self, dot: &Dot<A>) -> (r: Result<(), DotRange<A>>)
        ensures
            dot.counter <= stored(self@, dot.actor) + 1 ==> r is Ok,
            dot.counter > stored(self@, dot.actor) + 1 ==> r == Err::<(), DotRange<A>>(
                DotRange {
                    actor: dot.actor,
                    start: (stored(self@, dot.actor) + 1) as u64,
                    end: dot.counter,
                },
            ),
    {
        let seen = self.counter(&dot.actor);
        if dot.counter > seen && dot.counter - seen > 1 {
            Err(DotRange { actor: dot.actor, start: seen + 1, end: dot.counter })
        } else {
            Ok(())
        }
    }
}

impl<A: Actor> FromSpecImpl<Vec<(A, u64)>> for VClock<A> {
    open spec fn obeys_from_spec() -> bool {
        false
    }

    open spec fn from_spec(pairs: Vec<(A, u64)>) -> Self {
        arbitrary()
    }
}

impl<A: Actor> From<Vec<(A, u64)>> for VClock<A> {
    /// The clock that holds `pairs`; of two pairs of one actor the later one
    /// counts.
    fn from(pairs: Vec<(A, u64)>) -> (r: Self)
        ensures
            r@ == pairs_map(pairs@),
    {
        VClock::from_pairs(pairs)
    }
}

impl<A: Actor> FromSpecImpl<Dot<A>> for VClock<A> {
    open spec fn obeys_from_spec() -> bool {
        false
    }

    open spec fn from_spec(dot: Dot<A>) -> Self {
        arbitrary()
    }
}

impl<A: Actor> From<Dot<A>> for VClock<A> {
    /// The clock that holds the actor of `dot` at its counter and nothing
    /// else.
    fn from(dot: Dot<A>) -> (r: Self)
        ensures
            r@ == Map::<A, u64>::empty().insert(dot.actor, dot.counter),
    {
        proof {
            A::lawful();
        }
        let mut dots: BTreeMap<A, u64> = BTreeMap::new();
        dots.insert(dot.actor, dot.counter);
        VClock { dots }
    }
}

impl<A: Actor> Default for VClock<A> {
    /// The clock that holds no actor.
    fn default() -> (r: Self)
        ensures
            r@ == Map::<A, u64>::empty(),
    {
        VClock::new()
    }
}

} // verus!
