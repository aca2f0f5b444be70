//! Conversion of normalized audio samples to 16-bit PCM.
//!
//! A normalized sample `s` in `[-1.0, 1.0]` reaches this module already scaled:
//! as `s * 32767` truncated toward zero to an integer. Values from samples
//! outside the normalized range are saturated here, never wrapped, so a full
//! scale sample maps to `32767` and its negation to `-32767`.
use vstd::prelude::*;

verus! {

/// Largest magnitude of a PCM sample produced by the conversion.
pub const PCM_FULL_SCALE: i32 = 32767;

/// The PCM sample for a scaled value: the value itself, saturated to
/// `[-32767, 32767]`.
pub open spec fn pcm_of(v: int) -> i16 {
    if v > 32767 {
        32767
    } else if v < -32767 {
        -32767i16
    } else {
        v as i16
    }
}

/// The PCM samples of a scaled frame, one for one.
pub open spec fn pcm_frame(frame: Seq<i32>) -> Seq<i16> {
    Seq::new(frame.len(), |i: int| pcm_of(frame[i] as int))
}

/// Conversion saturates and never wraps: every PCM sample lies in
/// `[-32767, 32767]`, full scale and anything beyond it gives `32767`, its
/// negation and anything beyond gives `-32767`, a value in range is kept, and
/// no value at or below zero gives a positive sample.
pub proof fn lemma_pcm_saturates(v: int)
    ensures
        -32767 <= pcm_of(v) <= 32767,
        v >= 32767 ==> pcm_of(v) == 32767,
        v <= -32767 ==> pcm_of(v) == -32767,
        -32767 <= v <= 32767 ==> pcm_of(v) as int == v,
        v <= 0 ==> pcm_of(v) <= 0,
        v >= 0 ==> pcm_of(v) >= 0,
{
}

/// Converts one scaled sample to PCM, saturating at full scale.
pub fn pcm_from_scaled(v: i32) -> (r: i16)
    ensures
        r == pcm_of(v as int),
        -32767 <= r <= 32767,
{
    if v > PCM_FULL_SCALE {
        32767
    } else if v < -PCM_FULL_SCALE {
        -32767
    } else {
        v as i16
    }
}

/// Converts a scaled frame to PCM samples, in order.
pub fn frame_to_pcm(frame: &[i32]) -> (r: Vec<i16>)
    ensures
        r@ == pcm_frame(frame@),
{
    let mut out: Vec<i16> = Vec::with_capacity(frame.len());
    let mut i: usize = 0;
    while i < frame.len()
        invariant
            i <= frame@.len(),
            out@ == pcm_frame(frame@).take(i as int),
        decreases frame@.len() - i,
    {
        out.push(pcm_from_scaled(frame[i]));
        i += 1;
        assert(out@ =~= pcm_frame(frame@).take(i as int));
    }
    assert(out@ =~= pcm_frame(frame@));
    out
}

} // verus!
