//! The cancellable writer handle: a thin ownership wrapper around the
//! segmenting engine that ties it to a cancellation guard for an associated
//! background muxing task.  Dropping the handle signals the cancellation
//! unconditionally, so the muxing task is never orphaned.

use vstd::prelude::*;

use crate::error::SegmenterWriteH264Error;
use crate::segmenter::{avcc_from_bytes, write_step, H264Data, Segmenter, WriteAction};
use crate::time::{DurationH264, UnixH264};

use tokio_util::sync::DropGuard;

verus! {

/// Relies on `tokio_util::sync::DropGuard`, which cancels its cancellation
/// token when dropped; the writer only owns it, never calls into it.
#[verifier::external_type_specification]
#[verifier::external_body]
pub struct ExDropGuard(DropGuard);

/// Opaque wrapper around the segmenter that cancels the muxer when dropped.
pub struct H264Writer {
    pub segmenter: Segmenter,
    /// Cancels the associated muxing task when the writer is dropped.
    pub guard: DropGuard,
}

impl H264Writer {
    pub fn new(segmenter: Segmenter, guard: DropGuard) -> (r: Self)
        ensures
            r.segmenter == segmenter,
    {
        H264Writer { segmenter, guard }
    }

    /// Accepts one sample; see `Segmenter::write_h264`.
    pub fn write_h264(&mut self, now: UnixH264, data: H264Data) -> (r: Result<
        WriteAction,
        SegmenterWriteH264Error,
    >)
        requires
            old(self).segmenter.wf(),
        ensures
            final(self).segmenter.wf(),
            write_step(old(self).segmenter, final(self).segmenter, now, data, r),
    {
        self.segmenter.write_h264(now, data)
    }

    /// Records the outcome of a finalize performed for a segment switch; see
    /// `Segmenter::record_finalize_result`.
    pub fn record_finalize_result(&mut self, published: bool)
        ensures
            final(self).segmenter.first_segment_finalized == (old(
                self,
            ).segmenter.first_segment_finalized || published),
            Segmenter::same_but_adaptation(old(self).segmenter, final(self).segmenter) || old(
                self,
            ).segmenter.first_segment_finalized != final(self).segmenter.first_segment_finalized,
            final(self).segmenter.sample_durations == old(self).segmenter.sample_durations,
            final(self).segmenter.adjusted_part_duration == old(
                self,
            ).segmenter.adjusted_part_duration,
            final(self).segmenter.next_sample == old(self).segmenter.next_sample,
            final(self).segmenter.current_segment == old(self).segmenter.current_segment,
            final(self).segmenter.segment_id_counter == old(self).segmenter.segment_id_counter,
            final(self).segmenter.part_id_counter == old(self).segmenter.part_id_counter,
            final(self).segmenter.segment_duration == old(self).segmenter.segment_duration,
            final(self).segmenter.part_duration == old(self).segmenter.part_duration,
            final(self).segmenter.segment_max_size == old(self).segmenter.segment_max_size,
            final(self).segmenter.muxer_id == old(self).segmenter.muxer_id,
            final(self).segmenter.muxer_start_time == old(self).segmenter.muxer_start_time,
    {
        self.segmenter.record_finalize_result(published)
    }

    /// Writes a sample whose presentation and decode times are both `pts`,
    /// built from a raw buffer; the payload itself is opaque to the engine.
    pub fn test_write(&mut self, now: UnixH264, pts: i64, avcc: Vec<u8>, random_access: bool) -> (r:
        Result<WriteAction, SegmenterWriteH264Error>)
        requires
            old(self).segmenter.wf(),
        ensures
            final(self).segmenter.wf(),
            exists|data: H264Data|
                data.pts@ == pts && data.dts@ == pts && data.random_access_present == random_access
                    && write_step(old(self).segmenter, final(self).segmenter, now, data, r),
    {
        let payload = avcc_from_bytes(avcc);
        let data = H264Data {
            pts: DurationH264::new(pts),
            dts: DurationH264::new(pts),
            avcc: payload,
            random_access_present: random_access,
        };
        let ghost data_model = data;
        let r = self.segmenter.write_h264(now, data);
        proof {
            assert(data_model.pts@ == pts && data_model.dts@ == pts
                && data_model.random_access_present == random_access && write_step(
                old(self).segmenter,
                self.segmenter,
                now,
                data_model,
                r,
            ));
        }
        r
    }
}

} // verus!
