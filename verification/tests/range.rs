use wavfilter::range::LengthRange;

#[test]
fn both_bounds_are_kept() {
    let range = LengthRange::new(500, 1000);
    assert!(range.contains(500));
    assert!(range.contains(1000));
    assert!(range.contains(750));
}

#[test]
fn just_outside_the_bounds_is_rejected() {
    let range = LengthRange::new(500, 1000);
    assert!(!range.contains(499));
    assert!(!range.contains(1001));
    assert!(!range.contains(0));
    assert!(!range.contains(u64::MAX));
}

#[test]
fn a_range_of_one_time_keeps_that_time() {
    let range = LengthRange::new(500, 500);
    assert!(range.contains(500));
    assert!(!range.contains(499));
    assert!(!range.contains(501));
}

#[test]
fn bounds_the_wrong_way_round_keep_nothing() {
    let range = LengthRange::new(1000, 500);
    assert!(!range.contains(500));
    assert!(!range.contains(750));
    assert!(!range.contains(1000));
    assert!(!range.contains(0));
    assert!(!range.contains(u64::MAX));
}

#[test]
fn the_unbounded_range_keeps_everything() {
    let range = LengthRange::unbounded();
    assert_eq!(range.min_length, 0);
    assert_eq!(range.max_length, u64::MAX);
    assert!(range.contains(0));
    assert!(range.contains(1));
    assert!(range.contains(u64::MAX));
}

#[test]
fn the_default_range_is_unbounded() {
    assert_eq!(LengthRange::default(), LengthRange::unbounded());
    assert_eq!(LengthRange::default(), LengthRange { min_length: 0, max_length: u64::MAX });
}

#[test]
fn new_keeps_the_bounds() {
    let range = LengthRange::new(3, 9);
    assert_eq!(range.min_length, 3);
    assert_eq!(range.max_length, 9);
}

#[test]
fn the_extreme_bounds_are_kept() {
    assert!(LengthRange::new(0, 0).contains(0));
    assert!(!LengthRange::new(0, 0).contains(1));
    assert!(LengthRange::new(u64::MAX, u64::MAX).contains(u64::MAX));
    assert!(!LengthRange::new(u64::MAX, u64::MAX).contains(u64::MAX - 1));
}
