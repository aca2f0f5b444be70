//! Capture of microphone audio into a 16-bit PCM buffer and delivery of the
//! timestamped text segments that a speech-recognition engine produces from it.
//!
//! The device, the container file and the engine itself are collaborators
//! outside this library: it holds the decisions that sit between them.
//! - `pcm`: saturating conversion of scaled samples to PCM.
//! - `sink`: the capture buffer, closed for writes once finalized.
//! - `capture`: one recording session, from `start` to `stop`.
//! - `engine`: one transcription call, from the buffer to the segments.
pub mod capture;
pub mod engine;
pub mod pcm;
pub mod sink;
