//! The mathematical model of a clock: a finite map from actors to counters,
//! in which an absent actor stands at zero.

use crate::actor::Actor;
use crate::dot::Dot;
use std::cmp::Ordering;
use vstd::prelude::*;
use vstd::std_specs::cmp::OrdSpec;

verus! {

/// The counter that `m` holds for `a`: zero where `a` is absent.
pub open spec fn stored<A>(m: Map<A, u64>, a: A) -> u64 {
    if m.contains_key(a) {
        m[a]
    } else {
        0
    }
}

/// The larger of two counters.
pub open spec fn larger(x: u64, y: u64) -> u64 {
    if x >= y {
        x
    } else {
        y
    }
}

/// `m` after it has seen `d`: the entry of `d`'s actor is raised to `d`'s
/// counter where that is strictly further on, and nothing else changes.
pub open spec fn raise<A: Actor>(m: Map<A, u64>, d: Dot<A>) -> Map<A, u64> {
    if d.counter > stored(m, d.actor) {
        m.insert(d.actor, d.counter)
    } else {
        m
    }
}

/// The join of two clocks: every actor stands at the larger of its two
/// counters. An actor that only `o` holds is taken over where its counter is
/// above zero.
pub open spec fn join<A>(m: Map<A, u64>, o: Map<A, u64>) -> Map<A, u64> {
    Map::new(
        |a: A| m.contains_key(a) || (o.contains_key(a) && o[a] > 0),
        |a: A| larger(stored(m, a), stored(o, a)),
    )
}

/// `m` after it has seen the dots of `s` one after the other.
pub open spec fn raise_all<A: Actor>(m: Map<A, u64>, s: Seq<Dot<A>>) -> Map<A, u64>
    decreases s.len(),
{
    if s.len() == 0 {
        m
    } else {
        raise(raise_all(m, s.drop_last()), s.last())
    }
}

/// Whether `s` holds exactly the entries of `m`, each once.
pub open spec fn lists<A: Actor>(s: Seq<Dot<A>>, m: Map<A, u64>) -> bool {
    &&& forall|i: int|
        0 <= i < s.len() ==> m.contains_key(#[trigger] s[i].actor) && m[s[i].actor]
            == s[i].counter
    &&& forall|i: int, j: int|
        0 <= i < j < s.len() ==> #[trigger] s[i].actor != #[trigger] s[j].actor
    &&& forall|a: A| #[trigger]
        m.contains_key(a) ==> exists|i: int| 0 <= i < s.len() && #[trigger] s[i].actor == a
}

/// Whether the actors of `s` go up in the order of actors.
pub open spec fn ascending<A: Actor>(s: Seq<Dot<A>>) -> bool {
    forall|i: int, j: int|
        0 <= i < j < s.len() ==> (#[trigger] s[i]).actor.cmp_spec(&(#[trigger] s[j]).actor)
            == Ordering::Less
}

/// The sum of the counters that `m` holds.
pub open spec fn total<A>(m: Map<A, u64>) -> nat
    decreases m.dom().len(),
    when m.dom().finite()
{
    if m.dom().len() == 0 {
        0
    } else {
        let a = m.dom().choose();
        m[a] as nat + total(m.remove(a))
    }
}

/// The sum of the counters of the dots of `s`.
pub open spec fn sum_of<A: Actor>(s: Seq<Dot<A>>) -> nat
    decreases s.len(),
{
    if s.len() == 0 {
        0
    } else {
        sum_of(s.drop_last()) + s.last().counter as nat
    }
}

/// The clock in which each actor of `s` stands at zero.
pub open spec fn zeroes<A>(s: Seq<A>) -> Map<A, u64> {
    Map::new(|a: A| s.contains(a), |a: A| 0u64)
}

/// The clock that holds the pairs of `s`; of two pairs of one actor the
/// later one counts.
pub open spec fn pairs_map<A>(s: Seq<(A, u64)>) -> Map<A, u64>
    decreases s.len(),
{
    if s.len() == 0 {
        Map::empty()
    } else {
        pairs_map(s.drop_last()).insert(s.last().0, s.last().1)
    }
}

/// Whether `m` is at or beyond `o` for every actor that `o` holds.
pub open spec fn covers<A>(m: Map<A, u64>, o: Map<A, u64>) -> bool {
    forall|a: A| #[trigger] o.contains_key(a) ==> stored(m, a) >= o[a]
}

/// The partial order of clocks. Two clocks that hold the same are equal.
/// Otherwise the first is greater where it covers the second, less where
/// the second covers it, and the two are not ordered where neither covers the
/// other: some actor is further on in the first, another in the second.
pub open spec fn clock_order<A>(m: Map<A, u64>, o: Map<A, u64>) -> Option<Ordering> {
    if m == o {
        Some(Ordering::Equal)
    } else if covers(m, o) {
        Some(Ordering::Greater)
    } else if covers(o, m) {
        Some(Ordering::Less)
    } else {
        None
    }
}

/// The sum of a clock is the counter of any one of its actors plus the sum of
/// the rest.
pub proof fn lemma_total_remove<A>(m: Map<A, u64>, a: A)
    requires
        m.dom().finite(),
        m.contains_key(a),
    ensures
        total(m) == m[a] as nat + total(m.remove(a)),
    decreases m.dom().len(),
{
    let c = m.dom().choose();
    if c != a {
        m.lemma_remove_key_len(c);
        m.lemma_remove_key_len(a);
        lemma_total_remove(m.remove(c), a);
        lemma_total_remove(m.remove(a), c);
        assert(m.remove(c).remove(a) =~= m.remove(a).remove(c));
    }
}

/// The sum of a clock with one more actor.
pub proof fn lemma_total_insert<A>(m: Map<A, u64>, a: A, c: u64)
    requires
        m.dom().finite(),
    ensures
        total(m.insert(a, c)) == total(m) + c as nat - stored(m, a) as nat,
{
    let n = m.insert(a, c);
    lemma_total_remove(n, a);
    if m.contains_key(a) {
        lemma_total_remove(m, a);
        assert(n.remove(a) =~= m.remove(a));
    } else {
        assert(n.remove(a) =~= m);
    }
}

/// A list of the entries of a clock without its last dot lists the clock
/// without that dot's actor.
pub proof fn lemma_lists_drop_last<A: Actor>(s: Seq<Dot<A>>, m: Map<A, u64>)
    requires
        lists(s, m),
        s.len() > 0,
    ensures
        lists(s.drop_last(), m.remove(s.last().actor)),
{
    let t = s.drop_last();
    let n = m.remove(s.last().actor);
    assert forall|i: int| 0 <= i < t.len() implies n.contains_key(#[trigger] t[i].actor)
        && n[t[i].actor] == t[i].counter by {
        assert(t[i] == s[i]);
        assert(m.contains_key(s[i].actor));
        assert(s[i].actor != s[s.len() - 1].actor);
    }
    assert forall|i: int, j: int| 0 <= i < j < t.len() implies #[trigger] t[i].actor
        != #[trigger] t[j].actor by {
        assert(t[i] == s[i] && t[j] == s[j]);
    }
    assert forall|a: A| #[trigger] n.contains_key(a) implies exists|i: int|
        0 <= i < t.len() && #[trigger] t[i].actor == a by {
        assert(m.contains_key(a));
        let i = choose|i: int| 0 <= i < s.len() && #[trigger] s[i].actor == a;
        assert(i < s.len() - 1);
        assert(t[i].actor == a);
    }
}

/// A list of the entries of a clock is as long as the clock is large, and
/// the clock is finite.
pub proof fn lemma_lists_len<A: Actor>(s: Seq<Dot<A>>, m: Map<A, u64>)
    requires
        lists(s, m),
    ensures
        m.dom().finite(),
        m.dom().len() == s.len(),
    decreases s.len(),
{
    if s.len() == 0 {
        assert(m.dom() =~= Set::<A>::empty());
    } else {
        let k = s.last().actor;
        lemma_lists_drop_last(s, m);
        lemma_lists_len(s.drop_last(), m.remove(k));
        assert(m.contains_key(s[s.len() - 1].actor));
        assert(m.dom() =~= m.remove(k).dom().insert(k));
    }
}

/// The counters of a list of the entries of a clock add up to the clock's sum.
pub proof fn lemma_lists_sum<A: Actor>(s: Seq<Dot<A>>, m: Map<A, u64>)
    requires
        lists(s, m),
    ensures
        sum_of(s) == total(m),
    decreases s.len(),
{
    lemma_lists_len(s, m);
    if s.len() > 0 {
        let k = s.last().actor;
        lemma_lists_drop_last(s, m);
        lemma_lists_sum(s.drop_last(), m.remove(k));
        assert(m.contains_key(s[s.len() - 1].actor));
        lemma_total_remove(m, k);
    }
}

/// The counters of a part of a list add up to no more than those of the whole.
pub proof fn lemma_sum_of_take<A: Actor>(s: Seq<Dot<A>>, n: int)
    requires
        0 <= n <= s.len(),
    ensures
        sum_of(s.take(n)) <= sum_of(s),
    decreases s.len() - n,
{
    if n < s.len() {
        lemma_sum_of_take(s, n + 1);
        assert(s.take(n + 1).drop_last() =~= s.take(n));
    } else {
        assert(s.take(n) =~= s);
    }
}

/// To see the entries of a clock one after the other is to join with it.
pub proof fn lemma_raise_all_is_join<A: Actor>(m: Map<A, u64>, s: Seq<Dot<A>>, o: Map<A, u64>)
    requires
        lists(s, o),
    ensures
        raise_all(m, s) == join(m, o),
    decreases s.len(),
{
    if s.len() == 0 {
        assert(join(m, o) =~= m);
    } else {
        let d = s.last();
        assert(s[s.len() - 1] == d);
        assert(o.contains_key(d.actor) && o[d.actor] == d.counter);
        lemma_lists_drop_last(s, o);
        lemma_raise_all_is_join(m, s.drop_last(), o.remove(d.actor));
        assert(raise(join(m, o.remove(d.actor)), d) =~= join(m, o));
    }
}

} // verus!
