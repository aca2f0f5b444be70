//! The sample sink: the destination of captured frames, which converts them
//! to PCM and appends them to the capture buffer until it is finalized.
//!
//! Callers that share a sink between the real-time audio context and a
//! controlling thread hold it behind a lock; each `write` is one conversion
//! and append, with no I/O, so the lock is never held for long.
use vstd::prelude::*;
use crate::pcm::{pcm_frame, pcm_from_scaled};

verus! {

/// Why a write into a sink, or its finalization, failed.
#[derive(Clone, Copy, Debug, PartialEq, Eq, Structural)]
pub enum SinkError {
    /// The frame does not fit in what is left of the buffer's capacity.
    Full,
    /// The persistence layer could not store the samples.
    Io,
}

/// What a sink holds: its samples, whether it is finalized, and how many
/// samples it can hold at most.
pub struct SinkView {
    pub samples: Seq<i16>,
    pub finalized: bool,
    pub capacity: nat,
}

impl SinkView {
    pub open spec fn wf(self) -> bool {
        &&& self.samples.len() <= self.capacity
        &&& self.capacity <= usize::MAX
    }
}

/// The sink after one write of a scaled frame: a finalized sink drops it, a
/// frame that does not fit is refused whole, any other is appended.
pub open spec fn spec_write(v: SinkView, frame: Seq<i32>) -> SinkView {
    if v.finalized || v.samples.len() + frame.len() > v.capacity {
        v
    } else {
        SinkView { samples: v.samples + pcm_frame(frame), ..v }
    }
}

/// What one write of a scaled frame returns.
pub open spec fn spec_write_result(v: SinkView, frame: Seq<i32>) -> Result<(), SinkError> {
    if !v.finalized && v.samples.len() + frame.len() > v.capacity {
        Err(SinkError::Full)
    } else {
        Ok(())
    }
}

/// The sink after finalization: closed for writes, samples kept.
pub open spec fn spec_finalize(v: SinkView) -> SinkView {
    SinkView { finalized: true, ..v }
}

/// The sink after a sequence of writes, in order.
pub open spec fn spec_write_all(v: SinkView, frames: Seq<Seq<i32>>) -> SinkView
    decreases frames.len(),
{
    if frames.len() == 0 {
        v
    } else {
        spec_write(spec_write_all(v, frames.drop_last()), frames.last())
    }
}

/// The number of samples in a sequence of frames.
pub open spec fn total_len(frames: Seq<Seq<i32>>) -> nat
    decreases frames.len(),
{
    if frames.len() == 0 {
        0
    } else {
        total_len(frames.drop_last()) + frames.last().len()
    }
}

/// Writing frames into an open sink that has room for all of them, then
/// finalizing, leaves a buffer longer by exactly the sum of the frame lengths;
/// every write succeeds, and finalizing a second time changes nothing.
pub proof fn lemma_write_then_finalize(v: SinkView, frames: Seq<Seq<i32>>)
    requires
        v.wf(),
        !v.finalized,
        v.samples.len() + total_len(frames) <= v.capacity,
    ensures
        spec_finalize(spec_write_all(v, frames)).samples.len() == v.samples.len() + total_len(frames),
        spec_finalize(spec_write_all(v, frames)).finalized,
        !spec_write_all(v, frames).finalized,
        spec_write_all(v, frames).capacity == v.capacity,
        spec_finalize(spec_finalize(spec_write_all(v, frames))) == spec_finalize(spec_write_all(v, frames)),
        forall|i: int| 0 <= i < frames.len()
            ==> #[trigger] spec_write_result(spec_write_all(v, frames.take(i)), frames[i]) == Ok::<(), SinkError>(()),
    decreases frames.len(),
{
    if frames.len() > 0 {
        let prefix = frames.drop_last();
        lemma_write_then_finalize(v, prefix);
        let w = spec_write_all(v, prefix);
        assert(!w.finalized);
        assert forall|i: int| 0 <= i < frames.len()
            implies #[trigger] spec_write_result(spec_write_all(v, frames.take(i)), frames[i]) == Ok::<(), SinkError>(()) by {
            if i < frames.len() - 1 {
                assert(frames.take(i) =~= prefix.take(i));
                assert(frames[i] == prefix[i]);
                assert(spec_write_result(spec_write_all(v, prefix.take(i)), prefix[i]) == Ok::<(), SinkError>(()));
            } else {
                assert(frames.take(i) =~= prefix);
            }
        }
    }
}

/// Once a sink is finalized, every sequence of writes succeeds and leaves the
/// sink as it was.
pub proof fn lemma_closed_for_writes(v: SinkView, frames: Seq<Seq<i32>>)
    requires
        v.finalized,
    ensures
        spec_write_all(v, frames) == v,
        forall|i: int| 0 <= i < frames.len()
            ==> #[trigger] spec_write_result(spec_write_all(v, frames.take(i)), frames[i]) == Ok::<(), SinkError>(()),
    decreases frames.len(),
{
    if frames.len() > 0 {
        lemma_closed_for_writes(v, frames.drop_last());
    }
    assert forall|i: int| 0 <= i < frames.len()
        implies #[trigger] spec_write_result(spec_write_all(v, frames.take(i)), frames[i]) == Ok::<(), SinkError>(()) by {
        lemma_closed_for_writes(v, frames.take(i));
    }
}

/// Destination of captured frames, holding the capture buffer.
pub struct SampleSink {
    samples: Vec<i16>,
    capacity: usize,
    finalized: bool,
}

impl View for SampleSink {
    type V = SinkView;

    closed spec fn view(&self) -> SinkView {
        SinkView { samples: self.samples@, finalized: self.finalized, capacity: self.capacity as nat }
    }
}

impl SampleSink {
    pub open spec fn wf(&self) -> bool {
        self@.wf()
    }

    /// An open, empty sink that holds at most `capacity` samples.
    pub fn new(capacity: usize) -> (s: SampleSink)
        ensures
            s.wf(),
            s@ == (SinkView { samples: Seq::empty(), finalized: false, capacity: capacity as nat }),
    {
        SampleSink { samples: Vec::new(), capacity, finalized: false }
    }

    /// Converts a scaled frame to PCM and appends it. After `finalize` the
    /// frame is dropped and the write succeeds; a frame that does not fit is
    /// refused whole with `SinkError::Full`.
    pub fn write(&mut self, frame: &[i32]) -> (r: Result<(), SinkError>)
        requires
            old(self).wf(),
        ensures
            final(self).wf(),
            final(self)@ == spec_write(old(self)@, frame@),
            r == spec_write_result(old(self)@, frame@),
    {
        if self.finalized {
            return Ok(());
        }
        if frame.len() > self.capacity - self.samples.len() {
            return Err(SinkError::Full);
        }
        let ghost start = self.samples@;
        let mut i: usize = 0;
        while i < frame.len()
            invariant
                i <= frame@.len(),
                start == old(self).samples@,
                self.capacity == old(self).capacity,
                self.finalized == old(self).finalized,
                !self.finalized,
                start.len() + frame@.len() <= self.capacity,
                self.samples@ == start + pcm_frame(frame@).take(i as int),
            decreases frame@.len() - i,
        {
            self.samples.push(pcm_from_scaled(frame[i]));
            i += 1;
            assert(self.samples@ =~= start + pcm_frame(frame@).take(i as int));
        }
        assert(pcm_frame(frame@).take(frame@.len() as int) =~= pcm_frame(frame@));
        Ok(())
    }

    /// Closes the sink for writes. Finalizing again changes nothing; both
    /// succeed.
    pub fn finalize(&mut self) -> (r: Result<(), SinkError>)
        requires
            old(self).wf(),
        ensures
            final(self).wf(),
            final(self)@ == spec_finalize(old(self)@),
            r == Ok::<(), SinkError>(()),
    {
        self.finalized = true;
        Ok(())
    }

    /// Whether the sink is closed for writes.
    pub fn is_finalized(&self) -> (r: bool)
        ensures
            r == self@.finalized,
    {
        self.finalized
    }

    /// Number of samples in the buffer.
    pub fn len(&self) -> (r: usize)
        ensures
            r == self@.samples.len(),
    {
        self.samples.len()
    }

    /// Most samples the buffer can hold.
    pub fn capacity(&self) -> (r: usize)
        ensures
            r == self@.capacity,
    {
        self.capacity
    }

    /// The capture buffer, in order of capture.
    pub fn samples(&self) -> (r: &Vec<i16>)
        ensures
            r@ == self@.samples,
    {
        &self.samples
    }
}

} // verus!
