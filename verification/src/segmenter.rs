//! The segmenting engine.
//!
//! `write_h264` is the sole mutating entry point.  Each call buffers the
//! incoming sample and, once the previous sample's duration is known, decides
//! everything the caller must now do: which sample to hand to the open
//! segment, under which part duration, whether a segment must first be
//! created, and whether the open segment must be switched out and finalized.
//! The caller performs those operations and reports a finalize outcome back
//! through `record_finalize_result`.

use std::sync::Arc;

use vstd::prelude::*;

use crate::error::{AdjustPartDurationError, SegmenterWriteH264Error};
use crate::solver::{
    find_compatible_part_duration, is_least_grid_compatible, some_grid_compatible, DurationSet,
};
use crate::time::{DurationH264, UnixH264};

use sentryshot_padded_bytes::PaddedBytes;

verus! {

/// Relies on `sentryshot_padded_bytes::PaddedBytes`, the padded byte buffer
/// that carries a sample's encoded payload; the engine treats it as opaque.
#[verifier::external_type_specification]
#[verifier::external_body]
pub struct ExPaddedBytes(PaddedBytes);

/// Relies on `sentryshot_padded_bytes::PaddedBytes::new` to wrap an owned
/// buffer with decoder padding; the engine never reads the payload.
#[verifier::external_body]
pub(crate) fn avcc_from_bytes(bytes: Vec<u8>) -> Arc<PaddedBytes> {
    Arc::new(PaddedBytes::new(bytes))
}

/// Monotonically increasing identifier generator.
#[derive(Clone, Copy, PartialEq, Eq, Structural, Debug)]
pub struct IdCounter {
    pub value: u64,
}

/// The identifier generator after one allocation.
pub open spec fn counter_bump(c: IdCounter) -> IdCounter {
    IdCounter { value: if c.value == u64::MAX { 0u64 } else { (c.value + 1) as u64 } }
}

impl IdCounter {
    pub fn new(first_id: u64) -> (r: Self)
        ensures
            r.value == first_id,
    {
        IdCounter { value: first_id }
    }

    pub fn next_id(&mut self) -> (r: u64)
        ensures
            r == old(self).value,
            *final(self) == counter_bump(*old(self)),
    {
        let id = self.value;
        self.value = if self.value == u64::MAX {
            0
        } else {
            self.value + 1
        };
        id
    }
}

/// An encoded video sample as handed to the engine.
pub struct H264Data {
    pub pts: DurationH264,
    pub dts: DurationH264,
    pub avcc: Arc<PaddedBytes>,
    pub random_access_present: bool,
}

/// A sample with its capture time and (once known) its duration.
pub struct VideoSample {
    pub ntp: UnixH264,
    pub pts: DurationH264,
    pub dts: DurationH264,
    pub avcc: Arc<PaddedBytes>,
    pub random_access_present: bool,
    pub duration: DurationH264,
}

/// What the engine remembers of the segment presently accepting samples.
#[derive(Clone, Copy, PartialEq, Eq, Structural, Debug)]
pub struct SegmentMeta {
    pub id: u64,
    pub start_dts: DurationH264,
}

/// Everything a caller needs to construct a new segment collaborator.
#[derive(Clone, Copy, PartialEq, Eq, Structural, Debug)]
pub struct SegmentConfig {
    pub id: u64,
    pub muxer_id: u16,
    pub start_ntp: UnixH264,
    pub start_dts: DurationH264,
    pub muxer_start_time: i64,
    pub max_size: u64,
}

/// The switch the caller must perform after writing the sample: install the
/// new segment, then finalize the previous one at `end_dts`, publishing the
/// outcome through `record_finalize_result`.
pub struct SegmentSwitch {
    pub next_segment: SegmentConfig,
    pub end_dts: DurationH264,
}

/// The work a successful non-buffering write call hands to the caller, in
/// order: construct `new_segment` if present, write `sample` to the open
/// segment under `part_duration`, then perform `switch` if present.
pub struct WriteJob {
    pub new_segment: Option<SegmentConfig>,
    pub sample: VideoSample,
    pub part_duration: DurationH264,
    pub switch: Option<SegmentSwitch>,
}

/// The outcome of a successful write call.
pub enum WriteAction {
    /// The sample was only buffered; its duration is not yet known.
    Buffered,
    /// The previously buffered sample is ready to be written.
    Write(WriteJob),
}

/// The stateful segmenting engine.
pub struct Segmenter {
    pub segment_duration: DurationH264,
    pub part_duration: DurationH264,
    pub segment_max_size: u64,
    pub muxer_id: u16,
    pub muxer_start_time: i64,
    pub current_segment: Option<SegmentMeta>,
    pub segment_id_counter: IdCounter,
    pub part_id_counter: IdCounter,
    pub next_sample: Option<VideoSample>,
    pub first_segment_finalized: bool,
    pub sample_durations: DurationSet,
    pub adjusted_part_duration: DurationH264,
}

/// The sample built from a write call's arguments; its duration is unknown.
pub open spec fn sample_of(now: UnixH264, data: H264Data) -> VideoSample {
    VideoSample {
        ntp: now,
        pts: data.pts,
        dts: data.dts,
        avcc: data.avcc,
        random_access_present: data.random_access_present,
        duration: DurationH264 { ticks: 0 },
    }
}

/// Whether the span between two decode times is representable.
pub open spec fn duration_fits(next_dts: int, prev_dts: int) -> bool {
    i64::MIN <= next_dts - prev_dts <= i64::MAX
}

/// The buffered sample's duration: the decode-time step to the incoming
/// sample, with a regression clamped to zero.
pub open spec fn clamped_duration(next_dts: int, prev_dts: int) -> int {
    if next_dts - prev_dts < 0 {
        0
    } else {
        next_dts - prev_dts
    }
}

/// The configuration the engine hands out for a segment anchored at the given
/// capture time and decode time.
pub open spec fn segment_config(pre: Segmenter, id: u64, ntp: UnixH264, dts: DurationH264) -> SegmentConfig {
    SegmentConfig {
        id,
        muxer_id: pre.muxer_id,
        start_ntp: ntp,
        start_dts: dts,
        muxer_start_time: pre.muxer_start_time,
        max_size: pre.segment_max_size,
    }
}

impl Segmenter {
    pub open spec fn wf(&self) -> bool {
        self.sample_durations.wf()
    }

    /// Whether a sample duration leaves the adaptation state untouched:
    /// adaptation is frozen, the duration is degenerate, or it was already
    /// observed.
    pub open spec fn adaptation_skipped(&self, du: int) -> bool {
        self.first_segment_finalized || du == 0 || self.sample_durations@.contains(du)
    }

    /// All fields except the adaptation state (observed durations and the
    /// adjusted part duration) agree.
    pub open spec fn same_but_adaptation(pre: Segmenter, post: Segmenter) -> bool {
        &&& post.segment_duration == pre.segment_duration
        &&& post.part_duration == pre.part_duration
        &&& post.segment_max_size == pre.segment_max_size
        &&& post.muxer_id == pre.muxer_id
        &&& post.muxer_start_time == pre.muxer_start_time
        &&& post.current_segment == pre.current_segment
        &&& post.segment_id_counter == pre.segment_id_counter
        &&& post.part_id_counter == pre.part_id_counter
        &&& post.next_sample == pre.next_sample
        &&& post.first_segment_finalized == pre.first_segment_finalized
    }

    /// The decode time the open segment is anchored at for a non-buffering
    /// write: the recorded segment start, or the buffered sample's decode
    /// time if the first segment is yet to be created.
    pub open spec fn open_segment_start(pre: Segmenter) -> int
        recommends
            pre.next_sample is Some,
    {
        match pre.current_segment {
            Some(meta) => meta.start_dts@,
            None => match pre.next_sample {
                Some(prev) => prev.dts@,
                None => 0,
            },
        }
    }

    pub fn new(
        muxer_start_time: i64,
        segment_duration: DurationH264,
        part_duration: DurationH264,
        segment_max_size: u64,
        muxer_id: u16,
    ) -> (r: Self)
        ensures
            r.wf(),
            r.segment_duration == segment_duration,
            r.part_duration == part_duration,
            r.segment_max_size == segment_max_size,
            r.muxer_id == muxer_id,
            r.muxer_start_time == muxer_start_time,
            r.current_segment is None,
            r.segment_id_counter.value == 7,
            r.part_id_counter.value == 0,
            r.next_sample is None,
            !r.first_segment_finalized,
            r.sample_durations@ == Set::<int>::empty(),
            r.adjusted_part_duration@ == 0,
    {
        Segmenter {
            segment_duration,
            part_duration,
            segment_max_size,
            muxer_id,
            muxer_start_time,
            current_segment: None,
            segment_id_counter: IdCounter::new(7),  // required by iOS
            part_id_counter: IdCounter::new(0),
            next_sample: None,
            first_segment_finalized: false,
            sample_durations: DurationSet::new(),
            adjusted_part_duration: DurationH264::new(0),
        }
    }

    /// Adapts the part duration to a newly observed sample duration: a
    /// distinct positive duration grows the observed set and moves the
    /// adjusted part duration to the smallest candidate compatible with the
    /// grown set; anything else leaves the state untouched.  On failure no
    /// state changes at all.
    pub fn adjust_part_duration(&mut self, du: DurationH264) -> (r: Result<
        (),
        AdjustPartDurationError,
    >)
        requires
            old(self).wf(),
            du@ >= 0,
        ensures
            final(self).wf(),
            Self::same_but_adaptation(*old(self), *final(self)),
            old(self).adaptation_skipped(du@) ==> r is Ok && final(self).sample_durations@ == old(
                self,
            ).sample_durations@ && final(self).adjusted_part_duration == old(
                self,
            ).adjusted_part_duration,
            !old(self).adaptation_skipped(du@) ==> {
                let grown = old(self).sample_durations@.insert(du@);
                &&& (r is Ok <==> some_grid_compatible(old(self).part_duration@, grown))
                &&& (r is Ok ==> final(self).sample_durations@ == grown
                    && is_least_grid_compatible(
                    final(self).adjusted_part_duration@,
                    old(self).part_duration@,
                    grown,
                ))
                &&& (r is Err ==> final(self).sample_durations@ == old(self).sample_durations@
                    && final(self).adjusted_part_duration == old(self).adjusted_part_duration)
            },
    {
        if self.first_segment_finalized {
            return Ok(());
        }
        // Skip invalid durations.
        if du.is_zero() {
            return Ok(());
        }
        if self.sample_durations.contains(du) {
            return Ok(());
        }
        let ghost before = self.sample_durations;
        self.sample_durations.insert(du);
        match find_compatible_part_duration(self.part_duration, &self.sample_durations) {
            Some(d) => {
                self.adjusted_part_duration = d;
                Ok(())
            },
            None => {
                self.sample_durations.drop_newest();
                proof {
                    assert(self.sample_durations.sq() =~= before.sq());
                }
                Err(AdjustPartDurationError::Error)
            },
        }
    }

    /// Records the outcome of a finalize the caller performed for a segment
    /// switch.  A published segment sets the one-way latch that freezes
    /// part-duration adaptation; a cancelled finalize changes nothing.
    pub fn record_finalize_result(&mut self, published: bool)
        ensures
            final(self).first_segment_finalized == (old(self).first_segment_finalized
                || published),
            Self::same_but_adaptation(*old(self), *final(self)) || old(self).first_segment_finalized
                != final(self).first_segment_finalized,
            final(self).sample_durations == old(self).sample_durations,
            final(self).adjusted_part_duration == old(self).adjusted_part_duration,
            final(self).segment_duration == old(self).segment_duration,
            final(self).part_duration == old(self).part_duration,
            final(self).segment_max_size == old(self).segment_max_size,
            final(self).muxer_id == old(self).muxer_id,
            final(self).muxer_start_time == old(self).muxer_start_time,
            final(self).current_segment == old(self).current_segment,
            final(self).segment_id_counter == old(self).segment_id_counter,
            final(self).part_id_counter == old(self).part_id_counter,
            final(self).next_sample == old(self).next_sample,
    {
        if published {
            self.first_segment_finalized = true;
        }
    }
}

/// The engine after a call that only replaced the buffered sample: every
/// other part of the state is untouched.
pub open spec fn only_buffered(pre: Segmenter, post: Segmenter, incoming: VideoSample) -> bool {
    &&& post.next_sample == Some(incoming)
    &&& post.current_segment == pre.current_segment
    &&& post.segment_id_counter == pre.segment_id_counter
    &&& post.part_id_counter == pre.part_id_counter
    &&& post.first_segment_finalized == pre.first_segment_finalized
    &&& post.sample_durations@ == pre.sample_durations@
    &&& post.adjusted_part_duration == pre.adjusted_part_duration
    &&& post.segment_duration == pre.segment_duration
    &&& post.part_duration == pre.part_duration
    &&& post.segment_max_size == pre.segment_max_size
    &&& post.muxer_id == pre.muxer_id
    &&& post.muxer_start_time == pre.muxer_start_time
}

/// The full behaviour of one `write_h264` call: how the engine state moves
/// from `pre` to `post` and what the call returns.
pub open spec fn write_step(
    pre: Segmenter,
    post: Segmenter,
    now: UnixH264,
    data: H264Data,
    r: Result<WriteAction, SegmenterWriteH264Error>,
) -> bool {
    let incoming = sample_of(now, data);
    match pre.next_sample {
        None => {
            // First call: only buffer the sample.
            &&& r == Ok::<WriteAction, SegmenterWriteH264Error>(WriteAction::Buffered)
            &&& only_buffered(pre, post, incoming)
        },
        Some(prev) => {
            let nd = data.dts@;
            let pd = prev.dts@;
            if !duration_fits(nd, pd) {
                &&& r == Err::<WriteAction, SegmenterWriteH264Error>(SegmenterWriteH264Error::ComputeSampleDuration)
                &&& only_buffered(pre, post, incoming)
            } else {
                let du = clamped_duration(nd, pd);
                let skipped = pre.adaptation_skipped(du);
                let grown = pre.sample_durations@.insert(du);
                if !skipped && !some_grid_compatible(pre.part_duration@, grown) {
                    &&& r == Err::<WriteAction, SegmenterWriteH264Error>(
                        SegmenterWriteH264Error::AdjustPartDuration(AdjustPartDurationError::Error),
                    )
                    &&& only_buffered(pre, post, incoming)
                } else {
                    let open_meta = match pre.current_segment {
                        Some(meta) => meta,
                        None => SegmentMeta {
                            id: pre.segment_id_counter.value,
                            start_dts: prev.dts,
                        },
                    };
                    let ctr1 = match pre.current_segment {
                        Some(_) => pre.segment_id_counter,
                        None => counter_bump(pre.segment_id_counter),
                    };
                    let written = VideoSample {
                        ntp: prev.ntp,
                        pts: prev.pts,
                        dts: prev.dts,
                        avcc: prev.avcc,
                        random_access_present: prev.random_access_present,
                        duration: DurationH264 { ticks: du as i64 },
                    };
                    let switching = data.random_access_present && nd - open_meta.start_dts@
                        >= pre.segment_duration@;
                    &&& post.next_sample == Some(incoming)
                    &&& post.first_segment_finalized == pre.first_segment_finalized
                    &&& post.part_id_counter == pre.part_id_counter
                    &&& post.segment_duration == pre.segment_duration
                    &&& post.part_duration == pre.part_duration
                    &&& post.segment_max_size == pre.segment_max_size
                    &&& post.muxer_id == pre.muxer_id
                    &&& post.muxer_start_time == pre.muxer_start_time
                    &&& if skipped {
                        post.sample_durations@ == pre.sample_durations@
                            && post.adjusted_part_duration == pre.adjusted_part_duration
                    } else {
                        post.sample_durations@ == grown && is_least_grid_compatible(
                            post.adjusted_part_duration@,
                            pre.part_duration@,
                            grown,
                        )
                    }
                    &&& if data.random_access_present && !duration_fits(nd, open_meta.start_dts@) {
                        // The elapsed-time comparison itself is unrepresentable.
                        &&& r == Err::<WriteAction, SegmenterWriteH264Error>(SegmenterWriteH264Error::SwitchSegment)
                        &&& post.current_segment == Some(open_meta)
                        &&& post.segment_id_counter == ctr1
                    } else {
                        &&& post.current_segment == Some(
                            if switching {
                                SegmentMeta { id: ctr1.value, start_dts: data.dts }
                            } else {
                                open_meta
                            },
                        )
                        &&& post.segment_id_counter == (
                        if switching {
                            counter_bump(ctr1)
                        } else {
                            ctr1
                        })
                        &&& r == Ok::<WriteAction, SegmenterWriteH264Error>(
                            WriteAction::Write(
                                WriteJob {
                                    new_segment: match pre.current_segment {
                                        Some(_) => None,
                                        None => Some(
                                            segment_config(pre, open_meta.id, prev.ntp, prev.dts),
                                        ),
                                    },
                                    sample: written,
                                    part_duration: post.adjusted_part_duration,
                                    switch: if switching {
                                        Some(
                                            SegmentSwitch {
                                                next_segment: segment_config(
                                                    pre,
                                                    ctr1.value,
                                                    now,
                                                    data.dts,
                                                ),
                                                end_dts: data.dts,
                                            },
                                        )
                                    } else {
                                        None
                                    },
                                },
                            ),
                        )
                    }
                }
            }
        },
    }
}

impl Segmenter {
    /// Accepts one sample.  The first call only buffers it; every later call
    /// computes the buffered sample's duration from the incoming decode time,
    /// adapts the part duration, and returns the work the caller must perform
    /// for the buffered sample, including any segment creation or switch.
    pub fn write_h264(&mut self, now: UnixH264, data: H264Data) -> (r: Result<
        WriteAction,
        SegmenterWriteH264Error,
    >)
        requires
            old(self).wf(),
        ensures
            final(self).wf(),
            write_step(*old(self), *final(self), now, data, r),
            // The very first call after construction only buffers.
            old(self).next_sample is None ==> r == Ok::<WriteAction, SegmenterWriteH264Error>(WriteAction::Buffered),
            // A write call never moves the one-way latch.
            final(self).first_segment_finalized == old(self).first_segment_finalized,
            // Frozen adaptation: after the first publication, no sample
            // duration alters the observed set or the adjusted part duration.
            old(self).first_segment_finalized ==> final(self).sample_durations@ == old(
                self,
            ).sample_durations@ && final(self).adjusted_part_duration == old(
                self,
            ).adjusted_part_duration,
            // The duration error comes exactly from an unrepresentable
            // decode-time span; a mere regression is clamped, not an error.
            r == Err::<WriteAction, SegmenterWriteH264Error>(SegmenterWriteH264Error::ComputeSampleDuration) <==> (old(self).next_sample
                is Some && !duration_fits(
                data.dts@,
                match old(self).next_sample {
                    Some(prev) => prev.dts@,
                    None => 0,
                },
            )),
            // A switch is offered exactly on a random-access sample whose
            // decode time has run at least one target segment duration past
            // the open segment's start.
            match r {
                Ok(WriteAction::Write(job)) => job.switch is Some <==> (data.random_access_present
                    && data.dts@ - Self::open_segment_start(*old(self)) >= old(
                    self,
                ).segment_duration@),
                _ => true,
            },
    {
        let pts = data.pts;
        let dts = data.dts;
        let rap = data.random_access_present;
        let incoming = VideoSample {
            ntp: now,
            pts,
            dts,
            avcc: data.avcc,
            random_access_present: rap,
            duration: DurationH264::new(0),
        };

        // Buffer the sample; its duration is known only once the next
        // sample's decode time arrives.
        let prev_opt = self.next_sample.take();
        self.next_sample = Some(incoming);
        let prev = match prev_opt {
            None => {
                return Ok(WriteAction::Buffered);
            },
            Some(prev) => prev,
        };

        let sample_ntp = prev.ntp;
        let sample_dts = prev.dts;
        let duration = match dts.checked_sub(sample_dts) {
            Some(d) => d,
            None => {
                return Err(SegmenterWriteH264Error::ComputeSampleDuration);
            },
        };
        let duration = if duration.ticks < 0 {
            DurationH264::new(0)
        } else {
            duration
        };

        match self.adjust_part_duration(duration) {
            Ok(()) => {},
            Err(e) => {
                return Err(SegmenterWriteH264Error::AdjustPartDuration(e));
            },
        }

        // Create the first segment once the first sample duration is known.
        let (open_meta, new_segment) = match self.current_segment {
            Some(meta) => (meta, None),
            None => {
                let id = self.segment_id_counter.next_id();
                let meta = SegmentMeta { id, start_dts: sample_dts };
                self.current_segment = Some(meta);
                (
                    meta,
                    Some(
                        SegmentConfig {
                            id,
                            muxer_id: self.muxer_id,
                            start_ntp: sample_ntp,
                            start_dts: sample_dts,
                            muxer_start_time: self.muxer_start_time,
                            max_size: self.segment_max_size,
                        },
                    ),
                )
            },
        };

        let written = VideoSample {
            ntp: prev.ntp,
            pts: prev.pts,
            dts: prev.dts,
            avcc: prev.avcc,
            random_access_present: prev.random_access_present,
            duration,
        };

        // Switch segments only on a random-access sample, and only once the
        // incoming decode time has run a full target segment duration past
        // the open segment's start.
        let switch = if rap {
            let elapsed = match dts.checked_sub(open_meta.start_dts) {
                Some(e) => e,
                None => {
                    return Err(SegmenterWriteH264Error::SwitchSegment);
                },
            };
            if elapsed.ticks >= self.segment_duration.ticks {
                let next_id = self.segment_id_counter.next_id();
                self.current_segment = Some(SegmentMeta { id: next_id, start_dts: dts });
                Some(
                    SegmentSwitch {
                        next_segment: SegmentConfig {
                            id: next_id,
                            muxer_id: self.muxer_id,
                            start_ntp: now,
                            start_dts: dts,
                            muxer_start_time: self.muxer_start_time,
                            max_size: self.segment_max_size,
                        },
                        end_dts: dts,
                    },
                )
            } else {
                None
            }
        } else {
            None
        };

        Ok(
            WriteAction::Write(
                WriteJob {
                    new_segment,
                    sample: written,
                    part_duration: self.adjusted_part_duration,
                    switch,
                },
            ),
        )
    }
}

} // verus!
