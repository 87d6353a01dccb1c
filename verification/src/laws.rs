//! What makes replicas converge: seeing a dot is idempotent and commutes,
//! and joining is associative, commutative and idempotent.

use crate::actor::Actor;
use crate::dot::Dot;
use crate::gcounter::GCounter;
use crate::model::{join, larger, lists, raise, stored, total, zeroes};
use crate::model::{lemma_total_insert, lemma_total_remove};
use crate::pncounter::{pn_join, PnCounter, PnState};
use crate::vclock::VClock;
use vstd::prelude::*;

verus! {

/// Whether each actor that one of `m` and `o` holds at zero is held by the
/// other too.
pub open spec fn zeroes_shared<A>(m: Map<A, u64>, o: Map<A, u64>) -> bool {
    &&& forall|a: A| #[trigger] m.contains_key(a) && m[a] == 0 ==> o.contains_key(a)
    &&& forall|a: A| #[trigger] o.contains_key(a) && o[a] == 0 ==> m.contains_key(a)
}

/// A dot at or behind what a clock holds for its actor changes nothing.
pub proof fn lemma_raise_behind<A: Actor>(m: Map<A, u64>, d: Dot<A>)
    requires
        d.counter <= stored(m, d.actor),
    ensures
        raise(m, d) == m,
{
}

/// A dot strictly beyond what a clock holds for its actor sets the entry of
/// that actor to the dot's counter and leaves every other entry as it was.
pub proof fn lemma_raise_beyond<A: Actor>(m: Map<A, u64>, d: Dot<A>)
    requires
        d.counter > stored(m, d.actor),
    ensures
        raise(m, d).contains_key(d.actor),
        raise(m, d)[d.actor] == d.counter,
        forall|a: A|
            a != d.actor ==> (#[trigger] raise(m, d).contains_key(a) <==> m.contains_key(a)),
        forall|a: A| a != d.actor && #[trigger] m.contains_key(a) ==> raise(m, d)[a] == m[a],
{
}

/// To see a dot twice is to see it once.
pub proof fn lemma_raise_idempotent<A: Actor>(m: Map<A, u64>, d: Dot<A>)
    ensures
        raise(raise(m, d), d) == raise(m, d),
{
}

/// Two dots may be seen in either order.
pub proof fn lemma_raise_commutes<A: Actor>(m: Map<A, u64>, d: Dot<A>, e: Dot<A>)
    ensures
        raise(raise(m, d), e) == raise(raise(m, e), d),
{
    assert(raise(raise(m, d), e) =~= raise(raise(m, e), d));
}

/// A clock never falls back: after a dot every actor stands where it stood
/// or further on.
pub proof fn lemma_raise_grows<A: Actor>(m: Map<A, u64>, d: Dot<A>, a: A)
    ensures
        stored(raise(m, d), a) >= stored(m, a),
{
}

/// The empty clock sums to zero.
pub proof fn lemma_total_empty<A>()
    ensures
        total(Map::<A, u64>::empty()) == 0,
{
}

/// A dot adds to the sum of a clock what it is beyond the clock's counter
/// for its actor, and nothing where it is at or behind that counter.
pub proof fn lemma_raise_total<A: Actor>(m: Map<A, u64>, d: Dot<A>)
    requires
        m.dom().finite(),
    ensures
        total(raise(m, d)) == total(m) + larger(d.counter, stored(m, d.actor)) - stored(
            m,
            d.actor,
        ),
{
    if d.counter > stored(m, d.actor) {
        lemma_total_insert(m, d.actor, d.counter);
    }
}

/// In a join every actor stands at the larger of its two counters.
pub proof fn lemma_join_stored<A>(m: Map<A, u64>, o: Map<A, u64>, a: A)
    ensures
        stored(join(m, o), a) == larger(stored(m, a), stored(o, a)),
{
}

/// Joining is associative.
pub proof fn lemma_join_associative<A>(a: Map<A, u64>, b: Map<A, u64>, c: Map<A, u64>)
    ensures
        join(a, join(b, c)) == join(join(a, b), c),
{
    assert(join(a, join(b, c)) =~= join(join(a, b), c));
}

/// Joining a clock with itself gives the clock.
pub proof fn lemma_join_idempotent<A>(a: Map<A, u64>)
    ensures
        join(a, a) == a,
{
    assert(join(a, a) =~= a);
}

/// Joining is commutative in what every actor stands at.
pub proof fn lemma_join_commutes_in_counters<A>(a: Map<A, u64>, b: Map<A, u64>)
    ensures
        forall|k: A| #[trigger] stored(join(a, b), k) == stored(join(b, a), k),
{
}

/// Joining is commutative, as an equation between clocks, exactly where the
/// two clocks share the actors that one of them holds at zero. (An actor
/// held at zero is kept by the clock that is joined into and not taken over
/// from the clock that is joined.)
pub proof fn lemma_join_commutative<A>(a: Map<A, u64>, b: Map<A, u64>)
    ensures
        zeroes_shared(a, b) <==> join(a, b) == join(b, a),
{
    if zeroes_shared(a, b) {
        assert(join(a, b) =~= join(b, a));
    }
    if join(a, b) == join(b, a) {
        assert forall|k: A| #[trigger] a.contains_key(k) && a[k] == 0 implies b.contains_key(
            k,
        ) by {
            assert(join(a, b).contains_key(k));
            assert(join(b, a).contains_key(k));
        }
        assert forall|k: A| #[trigger] b.contains_key(k) && b[k] == 0 implies a.contains_key(
            k,
        ) by {
            assert(join(b, a).contains_key(k));
            assert(join(a, b).contains_key(k));
        }
    }
}

/// A join holds finitely many actors where both clocks do.
pub proof fn lemma_join_finite<A>(a: Map<A, u64>, b: Map<A, u64>)
    requires
        a.dom().finite(),
        b.dom().finite(),
    ensures
        join(a, b).dom().finite(),
{
    vstd::set_lib::lemma_len_subset(join(a, b).dom(), a.dom().union(b.dom()));
}

/// A clock that holds every actor of another at the same counter or beyond
/// sums to at least as much.
pub proof fn lemma_total_monotone<A>(a: Map<A, u64>, b: Map<A, u64>)
    requires
        a.dom().finite(),
        b.dom().finite(),
        forall|k: A| #[trigger] a.contains_key(k) ==> b.contains_key(k) && b[k] >= a[k],
    ensures
        total(a) <= total(b),
    decreases a.dom().len(),
{
    if a.dom().len() > 0 {
        let k = a.dom().choose();
        assert(a.contains_key(k));
        lemma_total_remove(a, k);
        lemma_total_remove(b, k);
        a.lemma_remove_key_len(k);
        lemma_total_monotone(a.remove(k), b.remove(k));
    }
}

/// The sum of a clock does not fall when another is joined into it.
pub proof fn lemma_join_total_grows<A>(a: Map<A, u64>, b: Map<A, u64>)
    requires
        a.dom().finite(),
        b.dom().finite(),
    ensures
        total(join(a, b)) >= total(a),
{
    lemma_join_finite(a, b);
    lemma_total_monotone(a, join(a, b));
}

/// The clock of a list of actors at zero depends on which actors the list
/// holds, not on their order or on how often one stands in it.
pub proof fn lemma_zeroes_order_free<A>(s: Seq<A>, t: Seq<A>)
    requires
        s.to_set() == t.to_set(),
    ensures
        zeroes(s) == zeroes(t),
{
    assert forall|a: A| s.contains(a) <==> t.contains(a) by {
        assert(s.contains(a) <==> s.to_set().contains(a));
        assert(t.contains(a) <==> t.to_set().contains(a));
    }
    assert(zeroes(s) =~= zeroes(t));
}

/// The dots of a clock made of a list of actors at zero are those actors,
/// each once and each at zero, whatever the order of the list.
pub proof fn lemma_zeroes_listed<A: Actor>(actors: Seq<A>, dots: Seq<Dot<A>>)
    requires
        lists(dots, zeroes(actors)),
    ensures
        forall|i: int|
            0 <= i < dots.len() ==> (#[trigger] dots[i]).counter == 0 && actors.contains(
                dots[i].actor,
            ),
        forall|i: int, j: int|
            0 <= i < j < dots.len() ==> (#[trigger] dots[i]).actor != (#[trigger] dots[j]).actor,
        forall|a: A| #[trigger]
            actors.contains(a) ==> exists|i: int|
                0 <= i < dots.len() && (#[trigger] dots[i]).actor == a,
{
    assert forall|i: int| 0 <= i < dots.len() implies (#[trigger] dots[i]).counter == 0
        && actors.contains(dots[i].actor) by {
        assert(zeroes(actors).contains_key(dots[i].actor));
    }
    assert forall|a: A| #[trigger] actors.contains(a) implies exists|i: int|
        0 <= i < dots.len() && (#[trigger] dots[i]).actor == a by {
        assert(zeroes(actors).contains_key(a));
        let i = choose|i: int| 0 <= i < dots.len() && #[trigger] dots[i].actor == a;
        assert(dots[i].actor == a);
    }
}

/// Merging vector clocks is associative, idempotent, and commutative in
/// what every actor stands at; it is commutative as an equation between
/// clocks where the clocks share the actors held at zero.
pub proof fn lemma_vclock_merge_semilattice<A: Actor>(a: VClock<A>, b: VClock<A>, c: VClock<A>)
    ensures
        join(a@, join(b@, c@)) == join(join(a@, b@), c@),
        join(a@, a@) == a@,
        forall|k: A| #[trigger] stored(join(a@, b@), k) == stored(join(b@, a@), k),
        zeroes_shared(a@, b@) <==> join(a@, b@) == join(b@, a@),
{
    lemma_join_associative(a@, b@, c@);
    lemma_join_idempotent(a@);
    lemma_join_commutes_in_counters(a@, b@);
    lemma_join_commutative(a@, b@);
}

/// Merging growing counters is associative, idempotent, and commutative in
/// what every actor has counted; it is commutative as an equation between
/// counters where the counters share the actors held at zero. The value
/// never falls in a merge.
pub proof fn lemma_gcounter_merge_semilattice<A: Actor>(
    a: GCounter<A>,
    b: GCounter<A>,
    c: GCounter<A>,
)
    ensures
        join(a@, join(b@, c@)) == join(join(a@, b@), c@),
        join(a@, a@) == a@,
        forall|k: A| #[trigger] stored(join(a@, b@), k) == stored(join(b@, a@), k),
        zeroes_shared(a@, b@) <==> join(a@, b@) == join(b@, a@),
        total(join(a@, b@)) >= total(a@),
{
    lemma_join_associative(a@, b@, c@);
    lemma_join_idempotent(a@);
    lemma_join_commutes_in_counters(a@, b@);
    lemma_join_commutative(a@, b@);
    a.lemma_finite();
    b.lemma_finite();
    lemma_join_total_grows(a@, b@);
}

/// Merging up-down counters is associative and idempotent, and commutative
/// in what every actor has counted up and down; it is commutative as an
/// equation between counters where the counters share the actors held at
/// zero on either side.
pub proof fn lemma_pncounter_merge_semilattice<A: Actor>(
    a: PnCounter<A>,
    b: PnCounter<A>,
    c: PnCounter<A>,
)
    ensures
        pn_join(a@, pn_join(b@, c@)) == pn_join(pn_join(a@, b@), c@),
        pn_join(a@, a@) == a@,
        forall|k: A| #[trigger]
            stored(pn_join(a@, b@).increments, k) == stored(pn_join(b@, a@).increments, k),
        forall|k: A| #[trigger]
            stored(pn_join(a@, b@).decrements, k) == stored(pn_join(b@, a@).decrements, k),
        zeroes_shared(a@.increments, b@.increments) && zeroes_shared(
            a@.decrements,
            b@.decrements,
        ) <==> pn_join(a@, b@) == pn_join(b@, a@),
{
    lemma_pn_join_laws(a@, b@, c@);
}

/// The laws of joining, for the states of up-down counters.
pub proof fn lemma_pn_join_laws<A>(a: PnState<A>, b: PnState<A>, c: PnState<A>)
    ensures
        pn_join(a, pn_join(b, c)) == pn_join(pn_join(a, b), c),
        pn_join(a, a) == a,
        forall|k: A| #[trigger]
            stored(pn_join(a, b).increments, k) == stored(pn_join(b, a).increments, k),
        forall|k: A| #[trigger]
            stored(pn_join(a, b).decrements, k) == stored(pn_join(b, a).decrements, k),
        zeroes_shared(a.increments, b.increments) && zeroes_shared(a.decrements, b.decrements)
            <==> pn_join(a, b) == pn_join(b, a),
{
    lemma_join_associative(a.increments, b.increments, c.increments);
    lemma_join_associative(a.decrements, b.decrements, c.decrements);
    lemma_join_idempotent(a.increments);
    lemma_join_idempotent(a.decrements);
    lemma_join_commutative(a.increments, b.increments);
    lemma_join_commutative(a.decrements, b.decrements);
    assert(pn_join(a, a) =~= a);
}

} // verus!
