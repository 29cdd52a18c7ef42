//! Tests of the part-duration compatibility solver and the time primitives.

use hls_segmenter::solver::{
    find_compatible_part_duration, part_duration_is_compatible, part_duration_is_compatible_with_all,
    DurationSet,
};
use hls_segmenter::time::{DurationH264, H264_MILLISECOND, H264_SECOND};

fn ticks(ms: i64) -> DurationH264 {
    DurationH264::new(ms * H264_MILLISECOND)
}

fn single(d: DurationH264) -> DurationSet {
    let mut s = DurationSet::new();
    s.insert(d);
    s
}

#[test]
fn floor_1000ms_sample_300ms_compatibility() {
    // ceil(1000 / 300) = 4, covered = 1200 ms, 85% of covered = 1020 ms.
    // 1000 ms is not above the tolerance, 1200 ms is.
    assert_eq!(part_duration_is_compatible(ticks(1000), ticks(300)), Some(false));
    assert_eq!(part_duration_is_compatible(ticks(1200), ticks(300)), Some(true));
}

#[test]
fn floor_1000ms_sample_300ms_search_returns_smallest() {
    // The smallest 5 ms candidate above 85% of the 1200 ms covered span:
    // 1025 ms (1020 ms is exactly the threshold and fails the strict test).
    let found = find_compatible_part_duration(ticks(1000), &single(ticks(300)));
    assert_eq!(found, Some(ticks(1025)));
}

#[test]
fn sample_equal_to_part_is_compatible() {
    assert_eq!(part_duration_is_compatible(ticks(300), ticks(300)), Some(true));
}

#[test]
fn sample_larger_than_part_is_incompatible() {
    assert_eq!(part_duration_is_compatible(ticks(300), ticks(500)), Some(false));
}

#[test]
fn search_on_empty_set_returns_floor() {
    let empty = DurationSet::new();
    assert_eq!(find_compatible_part_duration(ticks(1000), &empty), Some(ticks(1000)));
}

#[test]
fn search_at_bound_fails() {
    // The floor itself already reaches the 5 s bound: no candidate is visited.
    let set = single(ticks(300));
    assert_eq!(
        find_compatible_part_duration(DurationH264::new(5 * H264_SECOND), &set),
        None
    );
}

#[test]
fn search_fails_for_five_second_sample() {
    // Every candidate lies below 5 s, so a 5 s sample fits in none of them.
    let set = single(DurationH264::new(5 * H264_SECOND));
    assert_eq!(find_compatible_part_duration(ticks(1000), &set), None);
}

#[test]
fn compatible_floor_is_kept() {
    // 1000 ms divides evenly into 200 ms samples: covered = 1000 ms,
    // 85% of covered = 850 ms < 1000 ms.
    let found = find_compatible_part_duration(ticks(1000), &single(ticks(200)));
    assert_eq!(found, Some(ticks(1000)));
}

#[test]
fn all_durations_must_agree() {
    let mut set = DurationSet::new();
    set.insert(ticks(200));
    set.insert(ticks(300));
    assert_eq!(part_duration_is_compatible_with_all(ticks(1000), &set), Some(false));
    assert_eq!(part_duration_is_compatible_with_all(ticks(1200), &set), Some(true));
}

#[test]
fn duration_set_tracks_distinct_members() {
    let mut set = DurationSet::new();
    assert_eq!(set.len(), 0);
    assert!(!set.contains(ticks(300)));
    set.insert(ticks(300));
    assert_eq!(set.len(), 1);
    assert!(set.contains(ticks(300)));
    assert!(!set.contains(ticks(200)));
}

#[test]
fn checked_arithmetic_is_exact() {
    let a = DurationH264::new(i64::MAX);
    let one = DurationH264::new(1);
    assert_eq!(a.checked_add(one), None);
    assert_eq!(a.checked_sub(one), Some(DurationH264::new(i64::MAX - 1)));
    assert_eq!(DurationH264::new(i64::MIN).checked_sub(one), None);
    assert_eq!(ticks(10).checked_mul(DurationH264::new(3)), Some(DurationH264::new(2700)));
    assert_eq!(ticks(10).checked_div(ticks(3)), Some(DurationH264::new(3)));
    assert_eq!(ticks(10).checked_rem(ticks(3)), Some(DurationH264::new(90)));
    assert_eq!(ticks(10).checked_div(DurationH264::new(0)), None);
    assert!(DurationH264::new(0).is_zero());
    assert!(!one.is_zero());
}
