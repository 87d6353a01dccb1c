use euklid_clocks::{CmRDT, CvRDT, Dot, GCounter, PnCounter, PnCounterOp};

fn gc(pairs: Vec<(u8, u64)>) -> GCounter<u8> {
    pairs.into()
}

fn same(a: &GCounter<u8>, b: &GCounter<u8>) -> bool {
    a.counters() == b.counters()
}

#[test]
fn gcounter_merge_is_associative() {
    let mut left = gc(vec![(1, 4), (2, 0)]);
    let mut bc = gc(vec![(2, 7), (3, 1)]);
    bc.merge(gc(vec![(1, 9), (4, 0)]));
    left.merge(bc);

    let mut right = gc(vec![(1, 4), (2, 0)]);
    right.merge(gc(vec![(2, 7), (3, 1)]));
    right.merge(gc(vec![(1, 9), (4, 0)]));

    assert!(same(&left, &right));
    assert_eq!(9 + 7 + 1, left.value());
}

#[test]
fn gcounter_merge_is_commutative_and_idempotent() {
    let mut ab = gc(vec![(1, 4), (2, 6)]);
    ab.merge(gc(vec![(2, 7), (3, 1)]));
    let mut ba = gc(vec![(2, 7), (3, 1)]);
    ba.merge(gc(vec![(1, 4), (2, 6)]));
    assert!(same(&ab, &ba));
    assert_eq!(4 + 7 + 1, ab.value());

    ab.merge(gc(vec![(1, 4), (2, 7), (3, 1)]));
    assert!(same(&ab, &ba));
}

#[test]
fn gcounter_scenario_of_two_replicas() {
    let mut a = gc(vec![(1, 10), (2, 0), (3, 20)]);
    a.merge(gc(vec![(1, 5), (2, 5)]));
    assert_eq!(35, a.value());
    assert!(same(&a, &gc(vec![(1, 10), (2, 5), (3, 20)])));
}

fn pn(up: Vec<(u8, u64)>, down: Vec<(u8, u64)>) -> PnCounter<u8> {
    let mut p: PnCounter<u8> = up.into();
    for (actor, counter) in down {
        p.apply_op(PnCounterOp::Decr(Dot::new(actor, counter)));
    }
    p
}

fn same_pn(a: &PnCounter<u8>, b: &PnCounter<u8>) -> bool {
    a.increments().counters() == b.increments().counters()
        && a.decrements().counters() == b.decrements().counters()
}

#[test]
fn pncounter_merge_is_associative() {
    let mut left = pn(vec![(1, 4)], vec![(2, 2)]);
    let mut bc = pn(vec![(2, 7)], vec![(2, 5), (3, 1)]);
    bc.merge(pn(vec![(1, 9)], vec![(1, 1)]));
    left.merge(bc);

    let mut right = pn(vec![(1, 4)], vec![(2, 2)]);
    right.merge(pn(vec![(2, 7)], vec![(2, 5), (3, 1)]));
    right.merge(pn(vec![(1, 9)], vec![(1, 1)]));

    assert!(same_pn(&left, &right));
    assert_eq!((9 + 7) - (1 + 5 + 1), left.value());
}

#[test]
fn pncounter_merge_is_commutative_and_idempotent() {
    let mut ab = pn(vec![(1, 4)], vec![(2, 2)]);
    ab.merge(pn(vec![(1, 3), (2, 7)], vec![(2, 5)]));
    let mut ba = pn(vec![(1, 3), (2, 7)], vec![(2, 5)]);
    ba.merge(pn(vec![(1, 4)], vec![(2, 2)]));
    assert!(same_pn(&ab, &ba));
    assert_eq!((4 + 7) - 5, ab.value());

    ab.merge(pn(vec![(1, 4), (2, 7)], vec![(2, 5)]));
    assert!(same_pn(&ab, &ba));
}

#[test]
fn pncounter_apply_op_twice_is_once() {
    let mut p = pn(vec![(1, 4)], vec![]);
    p.apply_op(PnCounterOp::Decr(Dot::new(1, 3)));
    p.apply_op(PnCounterOp::Decr(Dot::new(1, 3)));
    p.apply_op(PnCounterOp::Incr(Dot::new(1, 2)));
    assert_eq!(4 - 3, p.value());
}
