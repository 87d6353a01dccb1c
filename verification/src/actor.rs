//! Actor identifiers.

use std::cmp::Ordering;
use vstd::prelude::*;
use vstd::std_specs::btree::increasing_seq;
use vstd::std_specs::cmp::{OrdSpec, PartialEqSpec, PartialOrdSpec};

verus! {

/// An actor identifier: a copyable value whose `==` is equality of values and
/// whose `Ord` is a total order that agrees with it.
///
/// The clocks compare and store actors through `PartialEq` and `Ord`; the law
/// below is what lets their contracts speak of plain equality of actors.
pub trait Actor: Copy + Ord {
    /// The comparison operators of `Self` behave as a total order on values.
    proof fn lawful()
        ensures
            vstd::laws_cmp::obeys_cmp::<Self>(),
            vstd::laws_eq::obeys_concrete_eq::<Self>(),
    ;
}

/// An actor that comes before another in the order is another actor.
pub proof fn lemma_less_differs<A: Actor>(x: A, y: A)
    requires
        x.cmp_spec(&y) == Ordering::Less,
    ensures
        x != y,
{
    A::lawful();
    reveal(vstd::laws_eq::obeys_concrete_eq);
    reveal(vstd::laws_cmp::obeys_cmp_ord);
    reveal(vstd::laws_cmp::obeys_cmp_partial_ord);
    reveal(vstd::laws_cmp::obeys_partial_cmp_spec_properties);
    if x == y {
        assert(x.eq_spec(&y));
        assert(x.partial_cmp_spec(&y) == Some(Ordering::Equal));
        assert(x.partial_cmp_spec(&y) == Some(x.cmp_spec(&y)));
    }
}

/// In a sequence of actors that goes up in the order, an earlier actor comes
/// before a later one.
pub proof fn lemma_goes_up<A: Actor>(s: Seq<A>, i: int, j: int)
    requires
        increasing_seq(s),
        0 <= i < j < s.len(),
    ensures
        s[i].cmp_spec(&s[j]) == Ordering::Less,
{
    A::lawful();
}

impl Actor for usize {
    proof fn lawful() {
        broadcast use vstd::laws_cmp::group_laws_cmp;
        broadcast use vstd::laws_eq::group_laws_eq;

    }
}

impl Actor for u8 {
    proof fn lawful() {
        broadcast use vstd::laws_cmp::group_laws_cmp;
        broadcast use vstd::laws_eq::group_laws_eq;

    }
}

impl Actor for u16 {
    proof fn lawful() {
        broadcast use vstd::laws_cmp::group_laws_cmp;
        broadcast use vstd::laws_eq::group_laws_eq;

    }
}

impl Actor for u32 {
    proof fn lawful() {
        broadcast use vstd::laws_cmp::group_laws_cmp;
        broadcast use vstd::laws_eq::group_laws_eq;

    }
}

impl Actor for u64 {
    proof fn lawful() {
        broadcast use vstd::laws_cmp::group_laws_cmp;
        broadcast use vstd::laws_eq::group_laws_eq;

    }
}

impl Actor for u128 {
    proof fn lawful() {
        broadcast use vstd::laws_cmp::group_laws_cmp;
        broadcast use vstd::laws_eq::group_laws_eq;

    }
}

impl Actor for i8 {
    proof fn lawful() {
        broadcast use vstd::laws_cmp::group_laws_cmp;
        broadcast use vstd::laws_eq::group_laws_eq;

    }
}

impl Actor for i16 {
    proof fn lawful() {
        broadcast use vstd::laws_cmp::group_laws_cmp;
        broadcast use vstd::laws_eq::group_laws_eq;

    }
}

impl Actor for i32 {
    proof fn lawful() {
        broadcast use vstd::laws_cmp::group_laws_cmp;
        broadcast use vstd::laws_eq::group_laws_eq;

    }
}

impl Actor for i64 {
    proof fn lawful() {
        broadcast use vstd::laws_cmp::group_laws_cmp;
        broadcast use vstd::laws_eq::group_laws_eq;

    }
}

impl Actor for i128 {
    proof fn lawful() {
        broadcast use vstd::laws_cmp::group_laws_cmp;
        broadcast use vstd::laws_eq::group_laws_eq;

    }
}

} // verus!
