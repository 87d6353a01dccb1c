use euklid_clocks::{CmRDT, CvRDT, Dot, PnCounter, PnCounterOp};

#[test]
fn pncounter_test_new() {
    type A = i32;
    let pnc = PnCounter::<A>::new();
    assert!(pnc.increments().is_empty());
    assert!(pnc.decrements().is_empty());
}

#[test]
fn pncounter_test_debug() {
    let gc = PnCounter::<i32>::from_iter(vec![1, 2, 3]);
    let s = format!("{:?}", gc);
    assert!(!s.is_empty())
}

#[test]
fn test_add_assign_dot() {
    let mut pnc = PnCounter::<i32>::new();

    pnc.apply_op(PnCounterOp::Incr(Dot::new(1, 10)));
    assert_eq!(pnc.increments().len(), 1);
    assert_eq!(pnc.value(), 10);

    pnc.apply_op(PnCounterOp::Incr(Dot::new(2, 20)));
    assert_eq!(pnc.increments().len(), 2);
    assert_eq!(pnc.value(), 30);
}

#[test]
fn test_add_assign_actor() {
    let mut pnc = PnCounter::<i32>::new();

    pnc.incr(&1);
    assert_eq!(pnc.increments().len(), 1);
    assert_eq!(pnc.value(), 1);

    pnc.incr(&2);
    assert_eq!(pnc.increments().len(), 2);
    assert_eq!(pnc.value(), 2);
}

#[test]
fn test_sub_assign_dot() {
    let mut pnc = PnCounter::<i32>::from(vec![(1, 10), (2, 0), (3, 20)]);

    pnc.apply_op(PnCounterOp::Decr(Dot::new(1, 2)));
    assert_eq!(pnc.value(), 10 + 20 - 2);
}

#[test]
fn test_sub_assign_actor() {
    let mut pnc = PnCounter::<i32>::from(vec![(1, 10), (2, 0), (3, 20)]);

    pnc.decr(&1);
    assert_eq!(pnc.value(), 10 + 20 - 1);
}

#[test]
fn pncounter_test_bitor_assign_gcounter() {
    let mut a = PnCounter::<i32>::from(vec![(1, 10), (2, 0), (3, 20)]);
    let b = PnCounter::<i32>::from(vec![(1, 5), (2, 5)]);

    a.merge(b);

    assert_eq!(a.increments().len(), 3);
    assert_eq!(a.value(), 10 + 5 + 20);
}

#[test]
fn pncounter_test_crdt_apply_op() {
    let mut pnc = PnCounter::<i32>::new();

    pnc.apply_op(PnCounterOp::Incr(Dot::new(1, 20)));
    assert_eq!(pnc.increments().len(), 1);
    assert_eq!(pnc.value(), 20);

    pnc.apply_op(PnCounterOp::Decr(Dot::new(2, 10)));
    assert_eq!(pnc.decrements().len(), 1);

    assert_eq!(pnc.value(), 20 - 10);
}

#[test]
fn pncounter_test_crdt_merge() {
    let mut a = PnCounter::<i32>::from(vec![(1, 10), (2, 0), (3, 20)]);
    let b = PnCounter::<i32>::from(vec![(1, 5), (2, 5)]);

    a.merge(b);

    assert_eq!(a.increments().len(), 3);
    assert_eq!(a.value(), 10 + 5 + 20);
}

#[test]
fn test_step_up() {
    let mut a = PnCounter::<i32>::from(vec![(1, 10), (2, 0), (3, 20)]);
    a.step_up(&1, 5);
    assert_eq!(10 + 5 + 20, a.value());
}

#[test]
fn test_incr() {
    let mut a = PnCounter::<i32>::from(vec![(1, 10), (2, 0), (3, 20)]);
    a.incr(&1);
    assert_eq!(10 + 1 + 20, a.value());
}

#[test]
fn test_step_down() {
    let mut a = PnCounter::<i32>::from(vec![(1, 10), (2, 0), (3, 20)]);
    a.step_down(&1, 5);
    assert_eq!(10 - 5 + 20, a.value());
}

#[test]
fn test_decr() {
    let mut a = PnCounter::<i32>::from(vec![(1, 10), (2, 0), (3, 20)]);
    a.decr(&1);
    assert_eq!(10 - 1 + 20, a.value());
}

#[test]
fn pncounter_up_and_down() {
    let mut pnc = PnCounter::<u8>::new();
    pnc.incr(&1);
    pnc.step_up(&1, 3);
    pnc.decr(&1);
    assert_eq!(3, pnc.value());
}

#[test]
fn pncounter_value_below_zero() {
    let mut pnc = PnCounter::<u8>::new();
    pnc.step_down(&4, 7);
    pnc.incr(&5);
    assert_eq!(-6, pnc.value());
}

#[test]
fn pncounter_value_over_the_whole_range() {
    let mut pnc = PnCounter::<u8>::new();
    pnc.step_down(&1, u64::MAX);
    assert_eq!(-(u64::MAX as i128), pnc.value());
    pnc.step_up(&1, u64::MAX);
    assert_eq!(0, pnc.value());
}

#[test]
fn pncounter_step_of_nothing_registers_nothing() {
    let mut pnc = PnCounter::<u8>::new();
    pnc.step_up(&1, 0);
    assert!(pnc.increments().is_empty());
    assert_eq!(0, pnc.value());
}

#[test]
fn pncounter_merge_joins_both_sides() {
    let mut a = PnCounter::<u8>::new();
    a.step_up(&1, 5);
    a.step_down(&2, 1);
    let mut b = PnCounter::<u8>::new();
    b.step_up(&1, 2);
    b.step_down(&2, 4);
    b.step_down(&3, 1);
    a.merge(b);
    assert_eq!(5 - 4 - 1, a.value());
    assert_eq!(2, a.decrements().len());
}

#[test]
fn pncounter_checked_value() {
    let mut pnc = PnCounter::<u8>::new();
    pnc.step_down(&4, 7);
    pnc.incr(&5);
    assert_eq!(Some(-6), pnc.checked_value());
    pnc.step_up(&6, u64::MAX);
    assert_eq!(None, pnc.checked_value());
}
