//! Dotted version vectors: one actor's writes, with the values that no later
//! write has superseded kept side by side.

use crate::actor::Actor;
use crate::causal::CausalOrd;
use crate::crdt::CmRDT;
use crate::dot::{lemma_dot_descends, Dot};
use vstd::prelude::*;

verus! {

/// The values that one actor has written and that are still current, each
/// under the dot of its write.
#[derive(Debug)]
pub struct Dvv<A: Actor, T> {
    /// The dot of the actor's latest write.
    pub dot: Dot<A>,
    /// The siblings: the current values in the order of their writes, each
    /// under the dot of its write.
    pub values: Vec<(Dot<A>, T)>,
}

/// The part of `s` that a write made with knowledge of `seen` leaves
/// standing: what was written at or before `seen` by the same actor goes.
pub open spec fn survivors<A: Actor, T>(s: Seq<(Dot<A>, T)>, seen: Dot<A>) -> Seq<(Dot<A>, T)> {
    s.filter(|e: (Dot<A>, T)| !seen.descends_from(e.0))
}

impl<A: Actor, T> Dvv<A, T> {
    /// Whether the siblings are writes of this actor, numbered upwards and
    /// none beyond the latest write.
    pub open spec fn wf(self) -> bool {
        &&& forall|i: int|
            0 <= i < self.values@.len() ==> (#[trigger] self.values@[i]).0.actor
                == self.dot.actor && 1 <= self.values@[i].0.counter <= self.dot.counter
        &&& forall|i: int, j: int|
            0 <= i < j < self.values@.len() ==> (#[trigger] self.values@[i]).0.counter < (
            #[trigger] self.values@[j]).0.counter
    }

    /// The vector of `actor` before its first write.
    pub fn new(actor: A) -> (r: Self)
        ensures
            r.dot == (Dot { actor, counter: 0 }),
            r.values@ == Seq::<(Dot<A>, T)>::empty(),
            r.wf(),
    {
        Dvv { dot: Dot::new(actor, 0), values: Vec::new() }
    }

    /// Takes out the siblings that `seen` descends from.
    fn prune(&mut self, seen: &Dot<A>)
        ensures
            final(self).dot == old(self).dot,
            final(self).values@ == survivors(old(self).values@, *seen),
    {
        let ghost before = self.values@;
        let ghost mut k: int = 0;
        let mut i: usize = 0;
        while i < self.values.len()
            invariant
                self.dot == old(self).dot,
                before == old(self).values@,
                0 <= k <= before.len(),
                i <= self.values@.len(),
                self.values@ =~= survivors(before.take(k), *seen) + before.skip(k),
                i == survivors(before.take(k), *seen).len(),
            decreases before.len() - k,
        {
            proof {
                assert(self.values@[i as int] == before.skip(k)[0]);
                assert(before.take(k + 1).drop_last() =~= before.take(k));
                assert(before.take(k + 1).last() == before[k]);
                assert(before.skip(k).skip(1) =~= before.skip(k + 1));
                lemma_dot_descends(*seen, before[k].0);
                reveal(Seq::filter);
            }
            if seen.descends(&self.values[i].0) {
                self.values.remove(i);
            } else {
                i = i + 1;
            }
            proof {
                k = k + 1;
            }
        }
        proof {
            assert(before.take(k) =~= before);
            assert(before.skip(k) =~= Seq::<(Dot<A>, T)>::empty());
        }
    }
}

impl<A: Actor, T: Clone> Dvv<A, T> {
    /// Records that the actor of `dot` wrote `v` with knowledge of `dot`.
    ///
    /// Where `dot` is of this vector's actor, the vector moves to its next
    /// write, drops the siblings that `dot` descends from, and adds a copy
    /// of `v` under the new dot. A dot of another actor changes nothing.
    pub fn merge(&mut self, dot: &Dot<A>, v: &T)
        requires
            old(self).dot.actor == dot.actor ==> old(self).dot.counter < u64::MAX,
        ensures
            old(self).dot.actor != dot.actor ==> {
                &&& final(self).dot == old(self).dot
                &&& final(self).values@ == old(self).values@
            },
            old(self).dot.actor == dot.actor ==> {
                &&& final(self).dot == (Dot {
                    actor: dot.actor,
                    counter: (old(self).dot.counter + 1) as u64,
                })
                &&& final(self).values@.len() == survivors(old(self).values@, *dot).len() + 1
                &&& final(self).values@.drop_last() == survivors(old(self).values@, *dot)
                &&& final(self).values@.last().0 == final(self).dot
                &&& cloned(*v, final(self).values@.last().1)
            },
            old(self).wf() ==> final(self).wf(),
    {
        proof {
            A::lawful();
            reveal(vstd::laws_eq::obeys_concrete_eq);
        }
        if self.dot.actor == dot.actor {
            self.dot.apply_inc_op();
            self.prune(dot);
            let copy = v.clone();
            self.values.push((self.dot, copy));
            proof {
                let kept = survivors(old(self).values@, *dot);
                assert(self.values@.drop_last() =~= kept);
                if old(self).wf() {
                    lemma_survivors_keep_order(old(self).values@, *dot);
                    assert forall|i: int| 0 <= i < self.values@.len() implies (
                    #[trigger] self.values@[i]).0.actor == self.dot.actor && 1
                        <= self.values@[i].0.counter <= self.dot.counter by {
                        if i < kept.len() {
                            assert(self.values@[i] == kept[i]);
                            assert(kept.contains(kept[i]));
                        }
                    }
                    assert forall|i: int, j: int| 0 <= i < j < self.values@.len() implies (
                    #[trigger] self.values@[i]).0.counter < (
                    #[trigger] self.values@[j]).0.counter by {
                        assert(self.values@[i] == kept[i]);
                        assert(kept.contains(kept[i]));
                        if j < kept.len() {
                            assert(self.values@[j] == kept[j]);
                        }
                    }
                }
            }
        }
    }
}

/// What a write leaves standing of siblings that are numbered upwards is
/// numbered upwards, and was among the siblings.
pub proof fn lemma_survivors_keep_order<A: Actor, T>(s: Seq<(Dot<A>, T)>, seen: Dot<A>)
    requires
        forall|i: int, j: int|
            0 <= i < j < s.len() ==> (#[trigger] s[i]).0.counter < (#[trigger] s[j]).0.counter,
    ensures
        forall|i: int, j: int|
            0 <= i < j < survivors(s, seen).len() ==> (#[trigger] survivors(s, seen)[i]).0.counter
                < (#[trigger] survivors(s, seen)[j]).0.counter,
        forall|i: int|
            0 <= i < survivors(s, seen).len() ==> s.contains(#[trigger] survivors(s, seen)[i]),
    decreases s.len(),
{
    reveal(Seq::filter);
    if s.len() > 0 {
        let t = s.drop_last();
        lemma_survivors_keep_order(t, seen);
        let kt = survivors(t, seen);
        let ks = survivors(s, seen);
        assert forall|i: int| 0 <= i < kt.len() implies s.contains(#[trigger] kt[i])
            && kt[i].0.counter < s.last().0.counter by {
            assert(t.contains(kt[i]));
            let k = choose|k: int| 0 <= k < t.len() && t[k] == kt[i];
            assert(s[k] == kt[i]);
        }
        if !seen.descends_from(s.last().0) {
            assert(ks =~= kt.push(s.last()));
            assert(s[s.len() - 1] == s.last());
        } else {
            assert(ks =~= kt);
        }
    }
}

impl<A: Actor, T: Clone> CmRDT for Dvv<A, T> {
    type Op = (Dot<A>, T);

    /// A write of this vector's actor needs room for one more write.
    open spec fn accepts(&self, op: &(Dot<A>, T)) -> bool {
        self.dot.actor == op.0.actor ==> self.dot.counter < u64::MAX
    }

    /// Records the write `op`: see `merge`.
    fn apply_op(&mut self, op: (Dot<A>, T))
        ensures
            old(self).dot.actor != op.0.actor ==> {
                &&& final(self).dot == old(self).dot
                &&& final(self).values@ == old(self).values@
            },
            old(self).dot.actor == op.0.actor ==> {
                &&& final(self).dot == (Dot {
                    actor: op.0.actor,
                    counter: (old(self).dot.counter + 1) as u64,
                })
                &&& final(self).values@.drop_last() == survivors(old(self).values@, op.0)
                &&& final(self).values@.len() == survivors(old(self).values@, op.0).len() + 1
                &&& final(self).values@.last().0 == final(self).dot
                &&& cloned(op.1, final(self).values@.last().1)
            },
            old(self).wf() ==> final(self).wf(),
    {
        self.merge(&op.0, &op.1);
    }
}

} // verus!
