//! A capture session: the lifecycle of one recording, from `start` through
//! the frames that the real-time audio context delivers to `stop`.
//!
//! The device stream itself is owned by the caller; the session decides what
//! happens to each delivered frame. A write that fails inside the real-time
//! context is never propagated: it is counted, and the context goes on.
use vstd::prelude::*;
use crate::sink::{spec_finalize, spec_write, spec_write_result, SampleSink, SinkError, SinkView};

verus! {

/// Bits in every PCM sample that a session captures.
pub const BITS_PER_SAMPLE: u16 = 16;

/// Why a capture could not start or stop.
#[derive(Clone, Copy, Debug, PartialEq, Eq, Structural)]
pub enum CaptureError {
    /// No input device could be opened.
    DeviceUnavailable,
    /// The device's format cannot be captured: no channel, a zero sample
    /// rate, or samples that are not 16 bits wide.
    FormatRejected,
    /// The sink failed to store the samples.
    Sink(SinkError),
}

/// The format of the captured samples; signed integer encoding throughout.
#[derive(Clone, Copy, Debug, PartialEq, Eq, Structural)]
pub struct AudioFormat {
    pub channel_count: u16,
    pub sample_rate_hz: u32,
    pub bits_per_sample: u16,
}

impl AudioFormat {
    pub open spec fn valid(self) -> bool {
        &&& self.channel_count >= 1
        &&& self.sample_rate_hz > 0
        &&& self.bits_per_sample == 16
    }

    /// A 16-bit format with the given channel count and sample rate; refused
    /// when either is zero.
    pub fn new(channel_count: u16, sample_rate_hz: u32) -> (r: Result<AudioFormat, CaptureError>)
        ensures
            channel_count >= 1 && sample_rate_hz > 0 ==> r == Ok::<AudioFormat, CaptureError>(
                AudioFormat { channel_count, sample_rate_hz, bits_per_sample: 16 },
            ),
            !(channel_count >= 1 && sample_rate_hz > 0) ==> r == Err::<AudioFormat, CaptureError>(
                CaptureError::FormatRejected,
            ),
    {
        if channel_count == 0 || sample_rate_hz == 0 {
            Err(CaptureError::FormatRejected)
        } else {
            Ok(AudioFormat { channel_count, sample_rate_hz, bits_per_sample: BITS_PER_SAMPLE })
        }
    }

    /// Number of samples, over all channels, that `seconds` of audio in this
    /// format take; `None` when that number does not fit in `usize`.
    pub fn samples_for_seconds(&self, seconds: u32) -> (r: Option<usize>)
        ensures
            ({
                let n = self.sample_rate_hz as int * self.channel_count as int * seconds as int;
                &&& n <= usize::MAX ==> r == Some(n as usize)
                &&& n > usize::MAX ==> r.is_none()
            }),
    {
        let rate = self.sample_rate_hz as u128;
        let channels = self.channel_count as u128;
        assert(rate * channels <= 0xffff_ffff_u128 * 0xffff_u128) by (nonlinear_arith)
            requires rate <= 0xffff_ffff_u128, channels <= 0xffff_u128;
        let per_second = rate * channels;
        assert(per_second * (seconds as u128) <= 0xffff_ffff_u128 * 0xffff_u128 * 0xffff_ffff_u128)
            by (nonlinear_arith)
            requires per_second <= 0xffff_ffff_u128 * 0xffff_u128, seconds <= 0xffff_ffff_u32;
        let n = per_second * (seconds as u128);
        if n <= usize::MAX as u128 {
            Some(n as usize)
        } else {
            None
        }
    }
}

/// What a session holds: its format, its sink, whether the device callback
/// is still attached, and how many writes failed inside the real-time context.
pub struct CaptureView {
    pub format: AudioFormat,
    pub sink: SinkView,
    pub attached: bool,
    pub failed_writes: nat,
}

impl CaptureView {
    pub open spec fn wf(self) -> bool {
        &&& self.format.valid()
        &&& self.sink.wf()
        &&& self.attached == !self.sink.finalized
        &&& self.failed_writes <= u64::MAX
    }
}

/// The error count after one more delivered frame: one more when its write
/// failed, saturating at the largest count.
pub open spec fn spec_failed_after(v: CaptureView, frame: Seq<i32>) -> nat {
    if spec_write_result(v.sink, frame) is Err && v.failed_writes < u64::MAX {
        v.failed_writes + 1
    } else {
        v.failed_writes
    }
}

/// The session after the real-time context delivers one scaled frame.
pub open spec fn spec_deliver(v: CaptureView, frame: Seq<i32>) -> CaptureView {
    if v.attached {
        CaptureView {
            sink: spec_write(v.sink, frame),
            failed_writes: spec_failed_after(v, frame),
            ..v
        }
    } else {
        v
    }
}

/// The session after `stop`: detached first, then its sink finalized.
pub open spec fn spec_stop(v: CaptureView) -> CaptureView {
    CaptureView { attached: false, sink: spec_finalize(v.sink), ..v }
}

/// The session after the real-time context delivers a sequence of frames.
pub open spec fn spec_deliver_all(v: CaptureView, frames: Seq<Seq<i32>>) -> CaptureView
    decreases frames.len(),
{
    if frames.len() == 0 {
        v
    } else {
        spec_deliver(spec_deliver_all(v, frames.drop_last()), frames.last())
    }
}

/// After `stop`, frames that the real-time context still delivers are
/// dropped: the buffer, the error count and the rest of the session stay as
/// they were, and stopping again changes nothing.
pub proof fn lemma_stopped_session_is_closed(v: CaptureView, frames: Seq<Seq<i32>>)
    ensures
        spec_deliver_all(spec_stop(v), frames) == spec_stop(v),
        spec_stop(spec_stop(v)) == spec_stop(v),
    decreases frames.len(),
{
    if frames.len() > 0 {
        lemma_stopped_session_is_closed(v, frames.drop_last());
    }
}

/// One recording session.
pub struct CaptureSession {
    format: AudioFormat,
    sink: SampleSink,
    attached: bool,
    failed_writes: u64,
}

impl View for CaptureSession {
    type V = CaptureView;

    closed spec fn view(&self) -> CaptureView {
        CaptureView {
            format: self.format,
            sink: self.sink@,
            attached: self.attached,
            failed_writes: self.failed_writes as nat,
        }
    }
}

impl CaptureSession {
    pub open spec fn wf(&self) -> bool {
        self@.wf()
    }

    /// Starts a session in `format` whose buffer holds at most `capacity`
    /// samples. An invalid format is refused with `FormatRejected`.
    pub fn start(format: AudioFormat, capacity: usize) -> (r: Result<CaptureSession, CaptureError>)
        ensures
            r is Err <==> !format.valid(),
            r is Err ==> r == Err::<CaptureSession, CaptureError>(CaptureError::FormatRejected),
            r matches Ok(s) ==> s.wf() && s@ == (CaptureView {
                format,
                sink: SinkView { samples: Seq::empty(), finalized: false, capacity: capacity as nat },
                attached: true,
                failed_writes: 0,
            }),
    {
        if format.channel_count == 0 || format.sample_rate_hz == 0 || format.bits_per_sample
            != BITS_PER_SAMPLE {
            return Err(CaptureError::FormatRejected);
        }
        Ok(CaptureSession { format, sink: SampleSink::new(capacity), attached: true, failed_writes: 0 })
    }

    /// Handles one scaled frame from the real-time context: written while the
    /// device is attached, dropped after `stop`. A failed write is counted,
    /// never returned.
    pub fn deliver(&mut self, frame: &[i32])
        requires
            old(self).wf(),
        ensures
            final(self).wf(),
            final(self)@ == spec_deliver(old(self)@, frame@),
    {
        if !self.attached {
            return;
        }
        let r = self.sink.write(frame);
        if r.is_err() && self.failed_writes < u64::MAX {
            self.failed_writes = self.failed_writes + 1;
        }
    }

    /// Detaches the device callback, then finalizes the sink, in that order.
    /// Stopping again changes nothing; both succeed.
    pub fn stop(&mut self) -> (r: Result<(), CaptureError>)
        requires
            old(self).wf(),
        ensures
            final(self).wf(),
            final(self)@ == spec_stop(old(self)@),
            r == Ok::<(), CaptureError>(()),
    {
        self.attached = false;
        match self.sink.finalize() {
            Ok(()) => Ok(()),
            Err(e) => Err(CaptureError::Sink(e)),
        }
    }

    /// Whether the device callback is still attached.
    pub fn is_attached(&self) -> (r: bool)
        ensures
            r == self@.attached,
    {
        self.attached
    }

    /// Number of writes that failed inside the real-time context.
    pub fn failed_writes(&self) -> (r: u64)
        ensures
            r == self@.failed_writes,
    {
        self.failed_writes
    }

    /// The format of the captured samples.
    pub fn format(&self) -> (r: AudioFormat)
        ensures
            r == self@.format,
    {
        self.format
    }

    /// The capture buffer, in order of capture.
    pub fn samples(&self) -> (r: &Vec<i16>)
        ensures
            r@ == self@.sink.samples,
    {
        self.sink.samples()
    }
}

} // verus!
