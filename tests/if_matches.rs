use std::cell::Cell;

use el_macro::if_matches::{if_matches, if_matches_guarded};

fn both(v: (Option<i32>, Option<i32>)) -> Option<(i32, i32)> {
    match v {
        (Some(x), Some(y)) => Some((x, y)),
        _ => None,
    }
}

#[test]
fn average_of_two_present_values() {
    let a = Some(41);
    let b = Some(43);
    let avg = |x: i32, y: i32| (x + y) / 2;
    let x = if_matches((a, b), both, |(x, y)| avg(x, y));
    assert!(x.is_some_and(|val| val == 42));
}

#[test]
fn absent_part_gives_none() {
    let a = Some(41);
    let x = if_matches(
        (a, None::<u8>),
        |v| match v {
            (Some(x), Some(_)) => Some(x),
            _ => None,
        },
        |_| a,
    );
    assert!(x.is_none());
}

#[test]
fn guard_true_maps_guard_false_gives_none() {
    let vol = Some(100);
    let bins = Some(25);
    let per_bin = if_matches_guarded((vol, bins), both, |&(_, b)| b != 0, |(v, b)| v / b);
    assert!(per_bin.is_some_and(|share| share == 4));

    let bins = Some(0);
    let per_bin = if_matches_guarded((vol, bins), both, |&(_, b)| b != 0, |(v, b)| v / b);
    assert!(per_bin.is_none());
}

#[test]
fn no_fit_never_maps() {
    let calls = Cell::new(0);
    let r = if_matches((Some(1), None), both, |(x, y)| {
        calls.set(calls.get() + 1);
        x + y
    });
    assert_eq!(r, None);
    assert_eq!(calls.get(), 0);

    let guards = Cell::new(0);
    let r = if_matches_guarded(
        (None, Some(2)),
        both,
        |_| {
            guards.set(guards.get() + 1);
            true
        },
        |(x, y)| {
            calls.set(calls.get() + 1);
            x + y
        },
    );
    assert_eq!(r, None);
    assert_eq!(guards.get(), 0);
    assert_eq!(calls.get(), 0);
}

#[test]
fn fit_maps_exactly_once() {
    let calls = Cell::new(0);
    let r = if_matches((Some(2), Some(3)), both, |(x, y)| {
        calls.set(calls.get() + 1);
        x * y
    });
    assert_eq!(r, Some(6));
    assert_eq!(calls.get(), 1);

    let calls = Cell::new(0);
    let r = if_matches_guarded((Some(2), Some(3)), both, |&(x, _)| x > 0, |(x, y)| {
        calls.set(calls.get() + 1);
        x - y
    });
    assert_eq!(r, Some(-1));
    assert_eq!(calls.get(), 1);
}

#[test]
fn false_guard_never_maps() {
    let calls = Cell::new(0);
    let r = if_matches_guarded((Some(2), Some(3)), both, |&(x, _)| x > 10, |(x, y)| {
        calls.set(calls.get() + 1);
        x - y
    });
    assert_eq!(r, None);
    assert_eq!(calls.get(), 0);
}

#[test]
fn average_of_forty_one_and_forty_three() {
    let r = if_matches((Some(41), Some(43)), both, |(x, y)| (x + y) / 2);
    assert_eq!(r, Some(42));
}

#[test]
fn zero_divisor_guard_skips_division() {
    let divisions = Cell::new(0);
    let r = if_matches_guarded((Some(100), Some(0)), both, |&(_, b)| b != 0, |(v, b)| {
        divisions.set(divisions.get() + 1);
        v / b
    });
    assert_eq!(r, None);
    assert_eq!(divisions.get(), 0);
}
