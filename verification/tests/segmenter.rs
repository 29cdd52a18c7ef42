//! Scenario tests of the segmenting engine.

use std::sync::Arc;

use hls_segmenter::error::{AdjustPartDurationError, SegmenterWriteH264Error};
use hls_segmenter::segmenter::{H264Data, IdCounter, Segmenter, WriteAction, WriteJob};
use hls_segmenter::time::{DurationH264, UnixH264, H264_MILLISECOND, H264_SECOND};
use sentryshot_padded_bytes::PaddedBytes;

fn ms(v: i64) -> i64 {
    v * H264_MILLISECOND
}

fn sample(dts: i64, random_access: bool) -> H264Data {
    H264Data {
        pts: DurationH264::new(dts),
        dts: DurationH264::new(dts),
        avcc: Arc::new(PaddedBytes::new(vec![0, 0, 0, 1])),
        random_access_present: random_access,
    }
}

/// Target segment duration 6 s, part floor 1 s.
fn engine() -> Segmenter {
    Segmenter::new(
        0,
        DurationH264::new(6 * H264_SECOND),
        DurationH264::new(H264_SECOND),
        1_000_000,
        9,
    )
}

fn write(seg: &mut Segmenter, dts: i64, random_access: bool) -> WriteJob {
    match seg.write_h264(UnixH264::new(dts), sample(dts, random_access)) {
        Ok(WriteAction::Write(job)) => job,
        Ok(WriteAction::Buffered) => panic!("expected a write job, sample was only buffered"),
        Err(e) => panic!("unexpected write error: {:?}", e),
    }
}

#[test]
fn first_write_only_buffers() {
    let mut seg = engine();
    let r = seg.write_h264(UnixH264::new(0), sample(0, true));
    assert!(matches!(r, Ok(WriteAction::Buffered)));
    assert!(seg.current_segment.is_none());
    assert_eq!(seg.segment_id_counter.value, 7);
    assert_eq!(seg.sample_durations.len(), 0);
    assert!(!seg.first_segment_finalized);
}

#[test]
fn second_write_creates_first_segment() {
    let mut seg = engine();
    let _ = seg.write_h264(UnixH264::new(0), sample(0, true)).unwrap();
    let job = write(&mut seg, ms(200), false);

    let config = job.new_segment.expect("the first segment must be created");
    assert_eq!(config.id, 7);
    assert_eq!(config.start_dts, DurationH264::new(0));
    assert_eq!(config.start_ntp, UnixH264::new(0));
    assert_eq!(config.muxer_id, 9);
    assert_eq!(config.max_size, 1_000_000);

    // The buffered sample comes back with its computed duration.
    assert_eq!(job.sample.dts, DurationH264::new(0));
    assert_eq!(job.sample.duration, DurationH264::new(ms(200)));
    assert!(job.switch.is_none());

    // 200 ms divides 1000 ms evenly, so the floor itself is kept.
    assert_eq!(job.part_duration, DurationH264::new(ms(1000)));
    assert_eq!(seg.segment_id_counter.value, 8);
}

#[test]
fn repeated_duration_leaves_adaptation_unchanged() {
    let mut seg = engine();
    let _ = seg.write_h264(UnixH264::new(0), sample(0, true)).unwrap();
    let _ = write(&mut seg, ms(300), false);
    let adjusted = seg.adjusted_part_duration;
    assert_eq!(seg.sample_durations.len(), 1);

    // The same 300 ms duration again: no growth, no new adjustment.
    let _ = write(&mut seg, ms(600), false);
    assert_eq!(seg.sample_durations.len(), 1);
    assert_eq!(seg.adjusted_part_duration, adjusted);

    // A distinct duration does move the adjustment.
    let _ = write(&mut seg, ms(1300), false);
    assert_eq!(seg.sample_durations.len(), 2);
}

#[test]
fn adaptation_picks_smallest_compatible_candidate() {
    let mut seg = engine();
    let _ = seg.write_h264(UnixH264::new(0), sample(0, true)).unwrap();
    let job = write(&mut seg, ms(300), false);
    // Observed {300 ms}: covered span for any candidate below 1200 ms is
    // 1200 ms, whose 85% tolerance is 1020 ms; the smallest 5 ms candidate
    // strictly above that is 1025 ms.
    assert_eq!(job.part_duration, DurationH264::new(ms(1025)));
    assert_eq!(seg.adjusted_part_duration, DurationH264::new(ms(1025)));
}

#[test]
fn published_finalize_freezes_adaptation() {
    let mut seg = engine();
    let _ = seg.write_h264(UnixH264::new(0), sample(0, true)).unwrap();
    let _ = write(&mut seg, ms(200), false);
    let adjusted = seg.adjusted_part_duration;

    seg.record_finalize_result(true);
    assert!(seg.first_segment_finalized);

    // A new distinct duration no longer grows the set or moves the target.
    let _ = write(&mut seg, ms(500), false);
    assert_eq!(seg.sample_durations.len(), 1);
    assert_eq!(seg.adjusted_part_duration, adjusted);
}

#[test]
fn cancelled_finalize_does_not_set_latch() {
    let mut seg = engine();
    let _ = seg.write_h264(UnixH264::new(0), sample(0, true)).unwrap();
    let _ = write(&mut seg, ms(200), false);

    seg.record_finalize_result(false);
    assert!(!seg.first_segment_finalized);

    // Adaptation is still live afterwards.
    let _ = write(&mut seg, ms(500), false);
    assert_eq!(seg.sample_durations.len(), 2);
}

#[test]
fn decode_time_regression_clamps_to_zero() {
    let mut seg = engine();
    let _ = seg.write_h264(UnixH264::new(0), sample(ms(1000), true)).unwrap();
    // 50 ms regression: duration 0, no adaptation update, no failure.
    let job = write(&mut seg, ms(950), false);
    assert_eq!(job.sample.duration, DurationH264::new(0));
    assert_eq!(seg.sample_durations.len(), 0);
    assert_eq!(seg.adjusted_part_duration, DurationH264::new(0));
}

#[test]
fn switch_happens_at_first_keyframe_past_target() {
    // Samples every 200 ms, a keyframe every 2 s, target 6 s: the switch
    // must come exactly with the keyframe at 6 s, not at 2 s or 4 s.
    let mut seg = engine();
    let _ = seg.write_h264(UnixH264::new(0), sample(0, true)).unwrap();
    let mut switched_at: Option<i64> = None;
    for k in 1i64..=30 {
        let dts = ms(200 * k);
        let keyframe = k % 10 == 0;
        let job = write(&mut seg, dts, keyframe);
        if let Some(switch) = job.switch {
            assert!(switched_at.is_none(), "only one switch expected");
            switched_at = Some(dts);
            assert_eq!(switch.end_dts, DurationH264::new(dts));
            assert_eq!(switch.next_segment.id, 8);
            assert_eq!(switch.next_segment.start_dts, DurationH264::new(dts));
        }
    }
    assert_eq!(switched_at, Some(ms(6000)));
    assert_eq!(
        seg.current_segment,
        Some(hls_segmenter::segmenter::SegmentMeta {
            id: 8,
            start_dts: DurationH264::new(ms(6000)),
        })
    );
}

#[test]
fn non_keyframe_past_target_does_not_switch() {
    let mut seg = engine();
    let _ = seg.write_h264(UnixH264::new(0), sample(0, true)).unwrap();
    // Walk well past the 6 s target without a single keyframe: no switch.
    for k in 1i64..=31 {
        let job = write(&mut seg, ms(200 * k), false);
        assert!(job.switch.is_none());
    }
    // The next keyframe does switch.
    let job = write(&mut seg, ms(6400), true);
    assert!(job.switch.is_some());
}

#[test]
fn unrepresentable_duration_is_an_error() {
    let mut seg = engine();
    let _ = seg.write_h264(UnixH264::new(0), sample(2, true)).unwrap();
    let r = seg.write_h264(UnixH264::new(0), sample(i64::MIN, false));
    assert_eq!(
        r.err().map(|e| matches!(e, SegmenterWriteH264Error::ComputeSampleDuration)),
        Some(true)
    );
    // The engine stays usable: the failed call's sample is now buffered.
    let job = write(&mut seg, i64::MIN + 100, false);
    assert_eq!(job.sample.duration, DurationH264::new(100));
}

#[test]
fn impossible_adaptation_is_an_error_without_partial_update() {
    let mut seg = engine();
    let _ = seg.write_h264(UnixH264::new(0), sample(0, true)).unwrap();
    // A 5 s sample duration fits no candidate below the 5 s search bound.
    let r = seg.write_h264(UnixH264::new(0), sample(5 * H264_SECOND, false));
    assert_eq!(
        r.err(),
        Some(SegmenterWriteH264Error::AdjustPartDuration(AdjustPartDurationError::Error))
    );
    assert_eq!(seg.sample_durations.len(), 0);
    assert_eq!(seg.adjusted_part_duration, DurationH264::new(0));
    assert!(seg.current_segment.is_none());
}

#[test]
fn unrepresentable_elapsed_time_is_an_error() {
    let mut seg = engine();
    // Freeze adaptation first so the huge sample durations are ignored.
    seg.record_finalize_result(true);
    let _ = seg.write_h264(UnixH264::new(0), sample(-6_000_000_000_000_000_000, true)).unwrap();
    // Opens the segment anchored far in the negative range.
    let _ = write(&mut seg, -5_000_000_000_000_000_000, false);
    // A keyframe so far ahead that the elapsed-time subtraction overflows.
    let r = seg.write_h264(UnixH264::new(0), sample(3_400_000_000_000_000_000, true));
    assert_eq!(r.err(), Some(SegmenterWriteH264Error::SwitchSegment));
}

#[test]
fn id_counter_allocates_sequentially() {
    let mut c = IdCounter::new(7);
    assert_eq!(c.next_id(), 7);
    assert_eq!(c.next_id(), 8);
    assert_eq!(c.value, 9);
}
