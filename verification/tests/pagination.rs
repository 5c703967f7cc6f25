//! Pagination and time-bounded query shaping.

use dsf_client::{select_window, PageBounds, TimeBounds};

fn ten_items() -> Vec<u64> {
    // t0..t9
    vec![0, 1, 2, 3, 4, 5, 6, 7, 8, 9]
}

fn unbounded_time() -> TimeBounds {
    TimeBounds::default()
}

#[test]
fn offset_then_count() {
    // bounds(offset=2, count=3) on [t0..t9] returns items at indices 2,3,4.
    let page = PageBounds { count: Some(3), offset: Some(2) };
    let r = select_window(&ten_items(), &unbounded_time(), &page);
    assert_eq!(r, vec![2, 3, 4]);
}

#[test]
fn offset_past_the_end_is_empty_not_an_error() {
    let page = PageBounds { count: Some(3), offset: Some(20) };
    let r = select_window(&ten_items(), &unbounded_time(), &page);
    assert_eq!(r, Vec::<u64>::new());
}

#[test]
fn default_bounds_return_everything() {
    let r = select_window(&ten_items(), &unbounded_time(), &PageBounds::default());
    assert_eq!(r, ten_items());
}

#[test]
fn count_exceeding_remainder_saturates() {
    let page = PageBounds { count: Some(100), offset: Some(8) };
    let r = select_window(&ten_items(), &unbounded_time(), &page);
    assert_eq!(r, vec![8, 9]);
}

#[test]
fn time_window_is_inclusive_on_both_sides() {
    let time = TimeBounds { from: Some(3), until: Some(6) };
    let r = select_window(&ten_items(), &time, &PageBounds::default());
    assert_eq!(r, vec![3, 4, 5, 6]);
}

#[test]
fn half_open_time_windows() {
    let from_only = TimeBounds { from: Some(7), until: None };
    assert_eq!(
        select_window(&ten_items(), &from_only, &PageBounds::default()),
        vec![7, 8, 9]
    );
    let until_only = TimeBounds { from: None, until: Some(2) };
    assert_eq!(
        select_window(&ten_items(), &until_only, &PageBounds::default()),
        vec![0, 1, 2]
    );
}

#[test]
fn offset_applies_after_time_filter() {
    let time = TimeBounds { from: Some(4), until: None };
    let page = PageBounds { count: Some(2), offset: Some(1) };
    // filtered: [4..9]; skip 1, take 2: [5, 6]
    assert_eq!(select_window(&ten_items(), &time, &page), vec![5, 6]);
}

#[test]
fn empty_input_yields_empty_output() {
    let r = select_window(&Vec::new(), &unbounded_time(), &PageBounds::default());
    assert_eq!(r, Vec::<u64>::new());
}

#[test]
fn disjoint_window_yields_empty_output() {
    let time = TimeBounds { from: Some(100), until: Some(200) };
    let r = select_window(&ten_items(), &time, &PageBounds::default());
    assert_eq!(r, Vec::<u64>::new());
}
