//! The bridge between a speech-recognition engine and its caller.
//!
//! One `transcribe` call is one `TranscriptionRun`, created fresh by `begin`
//! and consumed by `finish`. While the engine works, each of its notifications
//! is handed to the run: a progress report becomes a percentage that never
//! goes down, and a "segment ready" notification becomes an owned `Segment`,
//! validated before it is delivered. The first invalid notification ends
//! delivery for the rest of the call, and the call then fails with
//! `EngineError::Internal`; segments delivered before it stay valid.
use vstd::prelude::*;

verus! {

/// Code of `EngineError::Internal` when a segment's text could not be read
/// from the engine or was not valid UTF-8.
pub const TEXT_UNREADABLE: i32 = -1;

/// Code of `EngineError::Internal` when the engine announces a segment other
/// than the next one by index.
pub const SEGMENT_OUT_OF_ORDER: i32 = -2;

/// Code of `EngineError::Internal` when a segment ends before it starts.
pub const SPAN_REVERSED: i32 = -3;

/// Code of `EngineError::Internal` when a caller's callback faulted.
pub const CALLBACK_FAULT: i32 = -4;

/// Why a transcription failed.
#[derive(Clone, Copy, Debug, PartialEq, Eq, Structural)]
pub enum EngineError {
    /// The model could not be loaded.
    Load,
    /// The buffer holds no sample.
    EmptyInput,
    /// The engine, or a notification from it, failed; the code says how.
    Internal(i32),
    /// The engine finished later than the configured timeout allows.
    Timeout,
}

/// How the engine picks the next token.
#[derive(Clone, Copy, Debug, PartialEq, Eq, Structural)]
pub enum SamplingStrategy {
    Greedy { best_of: u32 },
    BeamSearch { beam_size: u32 },
}

/// The options of one transcription.
#[derive(Clone, Debug)]
pub struct TranscribeOptions {
    /// Language hint; `None` lets the engine detect it.
    pub language: Option<String>,
    /// Translate into English instead of transcribing.
    pub translate: bool,
    pub strategy: SamplingStrategy,
    /// Advisory wall-clock limit in milliseconds: it cannot interrupt the
    /// engine, only turn a late result into `EngineError::Timeout`.
    pub timeout_ms: Option<u64>,
}

impl Default for TranscribeOptions {
    /// Automatic language detection, no translation, greedy sampling with one
    /// candidate, no timeout.
    fn default() -> (r: TranscribeOptions)
        ensures
            r.language.is_none(),
            !r.translate,
            r.strategy == (SamplingStrategy::Greedy { best_of: 1 }),
            r.timeout_ms.is_none(),
    {
        TranscribeOptions {
            language: None,
            translate: false,
            strategy: SamplingStrategy::Greedy { best_of: 1 },
            timeout_ms: None,
        }
    }
}

/// A span of recognized text, its times in the engine's ticks.
#[derive(Clone, Debug, PartialEq, Eq)]
pub struct Segment {
    pub start_time: i64,
    pub end_time: i64,
    pub text: String,
}

pub struct SegmentView {
    pub start_time: i64,
    pub end_time: i64,
    pub text: Seq<char>,
}

impl View for Segment {
    type V = SegmentView;

    open spec fn view(&self) -> SegmentView {
        SegmentView { start_time: self.start_time, end_time: self.end_time, text: self.text@ }
    }
}

/// What the engine holds for one segment when it announces it: its index,
/// its times, and its text, `None` when the text could not be read or was not
/// valid UTF-8.
pub struct RawSegment {
    pub index: usize,
    pub start_time: i64,
    pub end_time: i64,
    pub text: Option<String>,
}

/// What a run holds: the segments delivered so far, in order, the last
/// reported progress, the fault that ended delivery if any, and the timeout.
pub struct RunView {
    pub segments: Seq<SegmentView>,
    pub progress: u8,
    pub fault: Option<EngineError>,
    pub timeout_ms: Option<u64>,
}

impl RunView {
    pub open spec fn wf(self) -> bool {
        self.progress <= 100
    }
}

/// The fault code for an announced segment, `None` when it may be delivered.
pub open spec fn spec_raw_fault(v: RunView, raw: RawSegment) -> Option<i32> {
    if raw.text is None {
        Some(TEXT_UNREADABLE)
    } else if raw.index != v.segments.len() {
        Some(SEGMENT_OUT_OF_ORDER)
    } else if raw.end_time < raw.start_time {
        Some(SPAN_REVERSED)
    } else {
        None
    }
}

/// A progress report clamped to `[0, 100]`.
pub open spec fn spec_clamp_percent(p: int) -> int {
    if p < 0 {
        0
    } else if p > 100 {
        100
    } else {
        p
    }
}

/// How a run ends: with the fault that ended delivery, else with the engine's
/// own failure, else with a timeout when the engine was late, else with the
/// delivered segments.
pub open spec fn spec_finish(v: RunView, status: Result<(), i32>, elapsed_ms: u64) -> Result<
    Seq<SegmentView>,
    EngineError,
> {
    if v.fault is Some {
        Err(v.fault->0)
    } else if status is Err {
        Err(EngineError::Internal(status->Err_0))
    } else if v.timeout_ms is Some && elapsed_ms > v.timeout_ms->0 {
        Err(EngineError::Timeout)
    } else {
        Ok(v.segments)
    }
}

/// The segment that an announced notification delivers.
pub open spec fn spec_segment_of(raw: RawSegment) -> SegmentView {
    SegmentView { start_time: raw.start_time, end_time: raw.end_time, text: raw.text->0@ }
}

/// Whether a run in state `v` delivers the announced segment.
pub open spec fn spec_delivers(v: RunView, raw: RawSegment) -> bool {
    v.fault is None && spec_raw_fault(v, raw) is None
}

/// The run after one "segment ready" notification.
pub open spec fn spec_segment_ready(v: RunView, raw: RawSegment) -> RunView {
    if v.fault is Some {
        v
    } else if spec_raw_fault(v, raw) is Some {
        RunView { fault: Some(EngineError::Internal(spec_raw_fault(v, raw)->0)), ..v }
    } else {
        RunView { segments: v.segments.push(spec_segment_of(raw)), ..v }
    }
}

/// The run after a sequence of "segment ready" notifications, in order.
pub open spec fn spec_segments_ready(v: RunView, raws: Seq<RawSegment>) -> RunView
    decreases raws.len(),
{
    if raws.len() == 0 {
        v
    } else {
        spec_segment_ready(spec_segments_ready(v, raws.drop_last()), raws.last())
    }
}

/// Segments are delivered in increasing index order: whatever the engine
/// announces, and in whatever order of start times, the segments delivered
/// before stay as they were, and every delivered segment ends up at the
/// position of its own index.
pub proof fn lemma_delivery_in_index_order(v: RunView, raws: Seq<RawSegment>)
    ensures
        ({
            let w = spec_segments_ready(v, raws);
            &&& v.segments.len() <= w.segments.len()
            &&& w.segments.subrange(0, v.segments.len() as int) == v.segments
            &&& forall|j: int| 0 <= j < raws.len() && #[trigger] spec_delivers(
                spec_segments_ready(v, raws.take(j)),
                raws[j],
            ) ==> raws[j].index < w.segments.len() && w.segments[raws[j].index as int]
                == spec_segment_of(raws[j])
        }),
    decreases raws.len(),
{
    if raws.len() > 0 {
        let prefix = raws.drop_last();
        lemma_delivery_in_index_order(v, prefix);
        let u = spec_segments_ready(v, prefix);
        let w = spec_segments_ready(v, raws);
        assert(u.segments.len() <= w.segments.len());
        assert(w.segments.subrange(0, u.segments.len() as int) =~= u.segments);
        assert(w.segments.subrange(0, v.segments.len() as int) =~= v.segments) by {
            assert(u.segments.subrange(0, v.segments.len() as int) == v.segments);
        }
        assert forall|j: int| 0 <= j < raws.len() && #[trigger] spec_delivers(
            spec_segments_ready(v, raws.take(j)),
            raws[j],
        ) implies raws[j].index < w.segments.len() && w.segments[raws[j].index as int]
            == spec_segment_of(raws[j]) by {
            if j < raws.len() - 1 {
                assert(raws.take(j) =~= prefix.take(j));
                assert(raws[j] == prefix[j]);
                assert(spec_delivers(spec_segments_ready(v, prefix.take(j)), prefix[j]));
                assert(w.segments[raws[j].index as int] == u.segments[raws[j].index as int]);
            } else {
                assert(raws.take(j) =~= prefix);
            }
        }
    } else {
        assert(v.segments.subrange(0, v.segments.len() as int) =~= v.segments);
    }
}

/// The state of one transcription call.
pub struct TranscriptionRun {
    segments: Vec<Segment>,
    progress: u8,
    fault: Option<EngineError>,
    timeout_ms: Option<u64>,
}

impl View for TranscriptionRun {
    type V = RunView;

    closed spec fn view(&self) -> RunView {
        RunView {
            segments: self.segments@.map_values(|s: Segment| s@),
            progress: self.progress,
            fault: self.fault,
            timeout_ms: self.timeout_ms,
        }
    }
}

impl TranscriptionRun {
    pub open spec fn wf(&self) -> bool {
        self@.wf()
    }

    /// Starts a run on `buffer`. An empty buffer fails at once with
    /// `EmptyInput`, before the engine is called, so no notification is ever
    /// delivered for it.
    pub fn begin(buffer: &[i16], options: &TranscribeOptions) -> (r: Result<
        TranscriptionRun,
        EngineError,
    >)
        ensures
            r is Err <==> buffer@.len() == 0,
            r is Err ==> r == Err::<TranscriptionRun, EngineError>(EngineError::EmptyInput),
            r matches Ok(run) ==> run.wf() && run@ == (RunView {
                segments: Seq::empty(),
                progress: 0,
                fault: None,
                timeout_ms: options.timeout_ms,
            }),
    {
        if buffer.len() == 0 {
            return Err(EngineError::EmptyInput);
        }
        let run = TranscriptionRun {
            segments: Vec::new(),
            progress: 0,
            fault: None,
            timeout_ms: options.timeout_ms,
        };
        assert(run@.segments =~= Seq::<SegmentView>::empty());
        Ok(run)
    }

    /// Handles the engine's "segment ready" notification. Delivers the
    /// segment, returning it for the caller's `on_segment`, only when no fault
    /// has ended delivery and the segment is the next by index, has readable
    /// text and does not end before it starts; otherwise records the fault and
    /// delivers nothing, now and for the rest of the call. The order of start
    /// times across segments is not checked.
    pub fn segment_ready(&mut self, raw: RawSegment) -> (r: Option<Segment>)
        requires
            old(self).wf(),
        ensures
            final(self).wf(),
            final(self)@ == spec_segment_ready(old(self)@, raw),
            spec_delivers(old(self)@, raw) ==> raw.index == old(self)@.segments.len() && (r matches Some(
                seg,
            ) && seg@ == spec_segment_of(raw)),
            !spec_delivers(old(self)@, raw) ==> r is None,
    {
        if self.fault.is_some() {
            return None;
        }
        let ghost before = self@;
        match raw.text {
            None => {
                self.fault = Some(EngineError::Internal(TEXT_UNREADABLE));
                None
            },
            Some(text) => {
                if raw.index != self.segments.len() {
                    self.fault = Some(EngineError::Internal(SEGMENT_OUT_OF_ORDER));
                    return None;
                }
                if raw.end_time < raw.start_time {
                    self.fault = Some(EngineError::Internal(SPAN_REVERSED));
                    return None;
                }
                let kept = Segment {
                    start_time: raw.start_time,
                    end_time: raw.end_time,
                    text: text.clone(),
                };
                self.segments.push(kept);
                let delivered = Segment { start_time: raw.start_time, end_time: raw.end_time, text };
                assert(self@.segments =~= before.segments.push(delivered@));
                assert(self@ == spec_segment_ready(before, raw));
                Some(delivered)
            },
        }
    }

    /// Handles a progress report from the engine: the percentage to hand to
    /// the caller's `on_progress`, clamped to `[0, 100]` and never below one
    /// reported before.
    pub fn report_progress(&mut self, percent: i32) -> (r: u8)
        requires
            old(self).wf(),
        ensures
            final(self).wf(),
            r as int == if spec_clamp_percent(percent as int) > old(self)@.progress {
                spec_clamp_percent(percent as int)
            } else {
                old(self)@.progress as int
            },
            old(self)@.progress <= r <= 100,
            final(self)@ == (RunView { progress: r, ..old(self)@ }),
    {
        let clamped: u8 = if percent < 0 {
            0
        } else if percent > 100 {
            100
        } else {
            percent as u8
        };
        if clamped > self.progress {
            self.progress = clamped;
        }
        self.progress
    }

    /// Records that a caller's callback faulted on the engine's stack: delivery
    /// ends and the call fails with `Internal(CALLBACK_FAULT)`, unless an
    /// earlier fault already ended it.
    pub fn report_callback_fault(&mut self)
        requires
            old(self).wf(),
        ensures
            final(self).wf(),
            old(self)@.fault is Some ==> final(self)@ == old(self)@,
            old(self)@.fault is None ==> final(self)@ == (RunView {
                fault: Some(EngineError::Internal(CALLBACK_FAULT)),
                ..old(self)@
            }),
    {
        if self.fault.is_none() {
            self.fault = Some(EngineError::Internal(CALLBACK_FAULT));
        }
    }

    /// Ends the run once the engine returned `status` (its own failure code on
    /// error) after `elapsed_ms` milliseconds.
    pub fn finish(self, status: Result<(), i32>, elapsed_ms: u64) -> (r: Result<
        Vec<Segment>,
        EngineError,
    >)
        ensures
            r is Ok <==> spec_finish(self@, status, elapsed_ms) is Ok,
            r matches Ok(segs) ==> segs@.map_values(|s: Segment| s@) == spec_finish(
                self@,
                status,
                elapsed_ms,
            )->Ok_0,
            r matches Err(e) ==> spec_finish(self@, status, elapsed_ms) == Err::<
                Seq<SegmentView>,
                EngineError,
            >(e),
    {
        if let Some(e) = self.fault {
            return Err(e);
        }
        if let Err(code) = status {
            return Err(EngineError::Internal(code));
        }
        if let Some(limit) = self.timeout_ms {
            if elapsed_ms > limit {
                return Err(EngineError::Timeout);
            }
        }
        Ok(self.segments)
    }

    /// The last progress percentage reported.
    pub fn progress(&self) -> (r: u8)
        ensures
            r == self@.progress,
    {
        self.progress
    }

    /// The fault that ended delivery, if any.
    pub fn fault(&self) -> (r: Option<EngineError>)
        ensures
            r == self@.fault,
    {
        self.fault
    }

    /// Number of segments delivered so far.
    pub fn delivered(&self) -> (r: usize)
        ensures
            r == self@.segments.len(),
    {
        self.segments.len()
    }
}

} // verus!
