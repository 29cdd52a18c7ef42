//! Tests of the cancellable writer handle.

use hls_segmenter::segmenter::{Segmenter, WriteAction};
use hls_segmenter::time::{DurationH264, UnixH264, H264_SECOND};
use hls_segmenter::writer::H264Writer;
use tokio_util::sync::CancellationToken;

fn writer() -> H264Writer {
    let segmenter = Segmenter::new(
        0,
        DurationH264::new(6 * H264_SECOND),
        DurationH264::new(H264_SECOND),
        1_000_000,
        3,
    );
    let token = CancellationToken::new();
    H264Writer::new(segmenter, token.drop_guard())
}

#[test]
fn writer_delegates_to_the_engine() {
    let mut w = writer();
    let r = w.test_write(UnixH264::new(0), 0, vec![1, 2, 3], true);
    assert!(matches!(r, Ok(WriteAction::Buffered)));

    let r = w.test_write(UnixH264::new(1), 18_000, vec![4, 5, 6], false);
    match r {
        Ok(WriteAction::Write(job)) => {
            assert_eq!(job.sample.duration, DurationH264::new(18_000));
            assert_eq!(job.new_segment.map(|c| c.id), Some(7));
        }
        _ => panic!("expected a write job"),
    }

    w.record_finalize_result(true);
    assert!(w.segmenter.first_segment_finalized);
}

#[test]
fn dropping_the_writer_cancels_the_muxer() {
    let segmenter = Segmenter::new(
        0,
        DurationH264::new(6 * H264_SECOND),
        DurationH264::new(H264_SECOND),
        1_000_000,
        3,
    );
    let token = CancellationToken::new();
    let w = H264Writer::new(segmenter, token.clone().drop_guard());
    assert!(!token.is_cancelled());
    drop(w);
    assert!(token.is_cancelled());
}
