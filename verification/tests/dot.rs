use euklid_clocks::{CausalOrd, CausalOrdering, Dot};
use std::cmp::Ordering;

#[test]
fn dot_constructors() {
    let d = Dot::new(3i32, 9);
    assert_eq!((3, 9), (d.actor, d.counter));
    assert_eq!(Dot::new(3i32, 0), Dot::new_zero(3));
    assert_eq!(Dot::new(3i32, 1), Dot::new_one(3));
    assert_eq!(Dot::new(3i32, 7), d.upd(7));
    let e: Dot<i32> = (3, 9).into();
    assert_eq!(d, e);
    let f: Dot<i32> = 3.into();
    assert_eq!(Dot::new(3, 0), f);
}

#[test]
fn dot_steps() {
    let d = Dot::new(3u8, 9);
    assert_eq!(Dot::new(3, 10), d.incr());
    assert_eq!(Dot::new(3, 19), d.step(10));
    assert_eq!(Dot::new(3, 9), d.step(0));
    assert_eq!(Dot::new(3, u64::MAX), Dot::new(3u8, u64::MAX - 1).incr());
    let mut m = d;
    m.apply_inc_op();
    assert_eq!(Dot::new(3, 10), m);
    m.apply_step_op(20);
    assert_eq!(Dot::new(3, 30), m);
}

#[test]
fn dot_joins() {
    let mut d = Dot::new(3u8, 9);
    d.join_counter(19);
    assert_eq!(19, d.counter);
    d.join_counter(4);
    assert_eq!(19, d.counter);
    d.join(Dot::new(3, 29));
    assert_eq!(29, d.counter);
    d.join(Dot::new(4, 39));
    assert_eq!(29, d.counter);
    d.join(Dot::new(3, 19));
    assert_eq!(29, d.counter);
}

#[test]
fn dot_equality() {
    assert!(Dot::new(1i32, 5) == Dot::new(1, 5));
    assert!(Dot::new(1i32, 5) != Dot::new(1, 6));
    assert!(Dot::new(1i32, 5) != Dot::new(2, 5));
}

#[test]
fn dot_partial_order() {
    let d = Dot::new(1i32, 5);
    assert_eq!(Some(Ordering::Equal), d.partial_cmp(&d));
    assert_eq!(Some(Ordering::Less), d.partial_cmp(&d.incr()));
    assert_eq!(Some(Ordering::Greater), d.incr().partial_cmp(&d));
    assert_eq!(None, d.partial_cmp(&Dot::new(2, 5)));
    assert!(d < d.incr());
    assert!(!(d < Dot::new(2, 6)));
}

#[test]
fn dot_causal_relations() {
    let d = Dot::new(1i32, 5);
    assert_eq!(CausalOrdering::Equal, d.causal_cmp(&d));
    assert_eq!(CausalOrdering::Succeed, d.incr().causal_cmp(&d));
    assert_eq!(CausalOrdering::Precede, d.causal_cmp(&d.incr()));
    assert_eq!(CausalOrdering::Concurrent, d.causal_cmp(&Dot::new(2, 5)));
    assert_eq!(CausalOrdering::Concurrent, d.causal_cmp(&Dot::new(2, 9)));
    assert_eq!(CausalOrdering::Concurrent, Dot::new(2, 9).causal_cmp(&d));
}

#[test]
fn dot_descends_dominates_concurrent() {
    let d = Dot::new(1i32, 5);
    let e = d.incr();
    let o = Dot::new(2i32, 5);
    assert!(d.descends(&d));
    assert!(e.descends(&d));
    assert!(!d.descends(&e));
    assert!(!d.descends(&o));
    assert!(e.dominates(&d));
    assert!(!d.dominates(&d));
    assert!(!d.dominates(&o));
    assert!(d.concurrent(&o));
    assert!(o.concurrent(&d));
    assert!(!d.concurrent(&e));
    assert!(!d.concurrent(&d));
}
