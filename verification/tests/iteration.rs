use std::cell::Cell;

use iterate::map::{IntoMap, MapCursor};
use iterate::vecs::VecCursor;
use iterate::{Collect, Iterate, Iterator};

fn increment(x: i32) -> i32 {
    x + 1
}

#[test]
fn map_accepts_plain_function_items() {
    let mut c = VecCursor::new(vec![1, 2]).map(increment).iterate();
    assert_eq!(c.next(), Some(2));
    assert_eq!(c.next(), Some(3));
    assert_eq!(c.next(), None);
}

#[test]
fn iterate_via_trait_path() {
    let b = VecCursor::new(vec![3]).map(|x: i32| x * 2);
    let mut c = Iterate::iterate(b);
    assert_eq!(c.next(), Some(6));
    assert_eq!(c.next(), None);
}

#[test]
fn map_cursor_new_wraps_cursor_and_transform() {
    let mut c = MapCursor::new(VecCursor::new(vec![2, 3]), |x: i32| x + 5);
    assert_eq!(c.next(), Some(7));
    assert_eq!(c.next(), Some(8));
    assert_eq!(c.next(), None);
}

#[test]
fn source_yields_items_in_order_then_none() {
    let mut c = VecCursor::new(vec![1, 2, 3]).iterate();
    assert_eq!(c.next(), Some(1));
    assert_eq!(c.next(), Some(2));
    assert_eq!(c.next(), Some(3));
    assert_eq!(c.next(), None);
    assert_eq!(c.next(), None);
    assert_eq!(c.next(), None);
}

#[test]
fn empty_source_yields_none_forever() {
    let mut c = VecCursor::new(Vec::<i32>::new()).iterate();
    assert_eq!(c.next(), None);
    assert_eq!(c.next(), None);
}

#[test]
fn map_identity_yields_same_sequence() {
    let mut mapped = VecCursor::new(vec![4, 5, 6]).map(|x: i32| x).iterate();
    let mut plain = VecCursor::new(vec![4, 5, 6]).iterate();
    for _ in 0..4 {
        assert_eq!(mapped.next(), plain.next());
    }
}

#[test]
fn map_composition_matches_fused_transform() {
    let f = |x: i32| x + 1;
    let g = |x: i32| x * 3;
    let mut twice = VecCursor::new(vec![1, 2, 3]).map(f).map(g).iterate();
    let mut fused = VecCursor::new(vec![1, 2, 3]).map(|x: i32| g(f(x))).iterate();
    for _ in 0..5 {
        assert_eq!(twice.next(), fused.next());
    }
}

#[test]
fn map_short_circuits_without_calling_transform() {
    let calls = Cell::new(0u32);
    let mut c = VecCursor::new(vec![7])
        .map(|x: i32| {
            calls.set(calls.get() + 1);
            x * 2
        })
        .iterate();
    assert_eq!(c.next(), Some(14));
    assert_eq!(calls.get(), 1);
    assert_eq!(c.next(), None);
    assert_eq!(calls.get(), 1);
    assert_eq!(c.next(), None);
    assert_eq!(calls.get(), 1);
}

#[test]
fn map_over_empty_never_calls_transform() {
    let calls = Cell::new(0u32);
    let mut c = VecCursor::new(Vec::<i32>::new())
        .map(|x: i32| {
            calls.set(calls.get() + 1);
            x
        })
        .iterate();
    assert_eq!(c.next(), None);
    assert_eq!(c.next(), None);
    assert_eq!(calls.get(), 0);
}

#[test]
fn blanket_identity_builds_cursor_to_itself() {
    let c = VecCursor::new(vec![9, 8]);
    let mut it = c.iterate();
    assert_eq!(it.next(), Some(9));
    assert_eq!(it.next(), Some(8));
    assert_eq!(it.next(), None);
}

#[test]
fn doubling_scenario_yields_exact_values() {
    let mut c = VecCursor::new(vec![1, 2, 3]).map(|x: i32| x * 2).iterate();
    assert_eq!(c.next(), Some(2));
    assert_eq!(c.next(), Some(4));
    assert_eq!(c.next(), Some(6));
    assert_eq!(c.next(), None);
    assert_eq!(c.next(), None);
}

#[test]
fn size_hint_defaults_to_unknown() {
    let source = VecCursor::new(vec![1, 2, 3]);
    assert_eq!(source.size_hint(), (0, None));
    let mapped = VecCursor::new(vec![1]).map(|x: i32| x).iterate();
    assert_eq!(mapped.size_hint(), (0, None));
}

#[test]
fn collect_drains_cursor_into_vec() {
    let out: Vec<i32> = VecCursor::new(vec![1, 2, 3]).collect();
    assert_eq!(out, vec![1, 2, 3]);
}

#[test]
fn collect_after_map_gathers_transformed_items() {
    let out: Vec<i32> = VecCursor::new(vec![1, 2]).map(|x: i32| x * 10).collect();
    assert_eq!(out, vec![10, 20]);
}

#[test]
fn collect_of_empty_source_is_empty() {
    let out: Vec<i32> = VecCursor::new(Vec::new()).collect();
    assert_eq!(out, Vec::<i32>::new());
}

#[test]
fn sink_collects_directly_from_cursor() {
    let out: Vec<i32> = Collect::collect(VecCursor::new(vec![5]));
    assert_eq!(out, vec![5]);
}

#[test]
fn into_map_new_wraps_builder_and_transform() {
    let b = IntoMap::new(VecCursor::new(vec![1, 2]), |x: i32| x - 1);
    let mut c = b.iterate();
    assert_eq!(c.next(), Some(0));
    assert_eq!(c.next(), Some(1));
    assert_eq!(c.next(), None);
}

#[test]
fn map_is_lazy_until_cursor_is_built() {
    let calls = Cell::new(0u32);
    let b = VecCursor::new(vec![1, 2]).map(|x: i32| {
        calls.set(calls.get() + 1);
        x
    });
    assert_eq!(calls.get(), 0);
    let b2 = b.map(|x: i32| x * 2);
    assert_eq!(calls.get(), 0);
    let mut c = b2.iterate();
    assert_eq!(calls.get(), 0);
    assert_eq!(c.next(), Some(2));
    assert_eq!(calls.get(), 1);
}

#[test]
fn stateful_transform_sees_each_item_once() {
    let sum = Cell::new(0i32);
    let mut c = VecCursor::new(vec![1, 2, 3])
        .map(|x: i32| {
            sum.set(sum.get() + x);
            sum.get()
        })
        .iterate();
    assert_eq!(c.next(), Some(1));
    assert_eq!(c.next(), Some(3));
    assert_eq!(c.next(), Some(6));
    assert_eq!(c.next(), None);
    assert_eq!(sum.get(), 6);
}

