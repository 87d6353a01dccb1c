use euklid_clocks::{CmRDT, CvRDT, Dot, GCounter};

#[test]
fn gcounter_test_new() {
    type A = i32;
    let gc = GCounter::<A>::new();
    assert!(gc.counters().is_empty());
    assert_eq!(gc.counters().len(), 0);
}

#[test]
fn gcounter_test_debug() {
    let gc = GCounter::<i32>::from_iter(vec![1, 2, 3]);
    let s = format!("{:?}", gc);
    assert!(!s.is_empty())
}

#[test]
fn test_bitor_assign_dot() {
    let mut gc = GCounter::<i32>::new();

    gc.merge_dot(Dot::new(1, 10));
    assert_eq!(gc.counters().len(), 1);
    assert_eq!(gc.value(), 10);

    gc.merge_dot(Dot::new(2, 20));
    assert_eq!(gc.counters().len(), 2);
    assert_eq!(gc.value(), 30);
}

#[test]
fn gcounter_test_bitor_assign_gcounter() {
    let mut a = GCounter::<i32>::from(vec![(1, 10), (2, 0), (3, 20)]);
    let b = GCounter::<i32>::from(vec![(1, 5), (2, 5)]);

    a.merge(b);

    assert_eq!(a.counters().len(), 3);
    assert_eq!(a.value(), 10 + 5 + 20);
}

#[test]
fn gcounter_test_crdt_apply_op() {
    let mut gc = GCounter::<i32>::new();

    gc.apply_op(Dot::new(1, 10));
    assert_eq!(gc.counters().len(), 1);
    assert_eq!(gc.value(), 10);

    gc.apply_op(Dot::new(2, 20));
    assert_eq!(gc.counters().len(), 2);
    assert_eq!(gc.value(), 30);
}

#[test]
fn gcounter_test_crdt_merge() {
    let mut a = GCounter::<i32>::from(vec![(1, 10), (2, 0), (3, 20)]);
    let b = GCounter::<i32>::from(vec![(1, 5), (2, 5)]);

    a.merge(b);

    assert_eq!(a.counters().len(), 3);
    assert_eq!(a.value(), 10 + 5 + 20);
}

#[test]
fn test_merge_dot() {
    let mut gc = GCounter::<i32>::new();

    gc.merge_dot(Dot::new(1, 10));
    assert_eq!(gc.counters().len(), 1);
    assert_eq!(gc.value(), 10);

    gc.merge_dot(Dot::new(2, 20));
    assert_eq!(gc.counters().len(), 2);
    assert_eq!(gc.value(), 30);
}

#[test]
fn from_pairs() {
    let gc: GCounter<i8> = vec![(1, 10), (2, 20), (3, 30)].into();
    assert_eq!(10 + 20 + 30, gc.value());
}

#[test]
fn incr_assign() {
    let mut gc = GCounter::<i8>::new();
    gc.incr_assign(&10);
    gc.incr_assign(&20);
    gc.incr_assign(&20);

    assert_eq!(3, gc.value());
}

#[test]
fn gcounter_merge() {
    let mut gc1 = GCounter::<i8>::new();
    gc1.incr_assign(&10);
    gc1.incr_assign(&20);
    gc1.incr_assign(&20);

    let mut gc2 = GCounter::<i8>::new();
    gc2.incr_assign(&20);
    gc2.incr_assign(&30);
    gc2.incr_assign(&30);
    gc2.incr_assign(&30);

    gc1.merge(gc2);

    assert_eq!(1 + 2 + 3, gc1.value());
}

#[test]
fn apply() {
    let mut gc1 = GCounter::<i8>::new();
    gc1.incr_assign(&10);
    gc1.incr_assign(&20);
    gc1.incr_assign(&20);

    gc1.apply_op(Dot::new(10, 3));

    assert_eq!(3 + 2, gc1.value());
}

#[test]
fn gcounter_registered_actors_count_nothing() {
    let gc = GCounter::<u16>::from_iter(vec![5, 1, 5, 9]);
    assert_eq!(3, gc.len());
    assert!(!gc.is_empty());
    assert_eq!(0, gc.value());
}

#[test]
fn gcounter_value_never_falls_in_a_merge() {
    let mut a = GCounter::<u8>::from(vec![(1, 4), (2, 9)]);
    let before = a.value();
    a.merge(GCounter::<u8>::from(vec![(1, 3), (3, 0)]));
    assert_eq!(before, a.value());
    a.merge(GCounter::<u8>::from(vec![(1, 6), (3, 2)]));
    assert_eq!(6 + 9 + 2, a.value());
}

#[test]
fn gcounter_value_at_the_top_of_the_range() {
    let gc = GCounter::<u8>::from(vec![(1, u64::MAX - 1), (2, 1)]);
    assert_eq!(u64::MAX, gc.value());
}

#[test]
fn gcounter_older_dot_is_ignored() {
    let mut gc = GCounter::<u8>::from(vec![(1, 4)]);
    gc.merge_dot(Dot::new(1, 4));
    gc.merge_dot(Dot::new(1, 2));
    assert_eq!(4, gc.value());
    assert_eq!(1, gc.len());
}

#[test]
fn gcounter_checked_value() {
    let gc = GCounter::<u8>::from(vec![(1, u64::MAX - 1), (2, 1)]);
    assert_eq!(Some(u64::MAX), gc.checked_value());
    let gc = GCounter::<u8>::from(vec![(1, u64::MAX - 1), (2, 1), (3, 1)]);
    assert_eq!(None, gc.checked_value());
    assert_eq!(Some(0), GCounter::<u8>::new().checked_value());
}
