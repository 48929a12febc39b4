//! Core of a push-to-talk voice capture pipeline.
//!
//! A user holds a key to record microphone audio; on release the buffered
//! samples are handed over a FIFO channel to a recognition worker, whose
//! transcript travels back over a second channel to the render loop.  This
//! crate holds the verified heart of that pipeline: the recording state
//! machine, the capture-queue semantics, the message channels, and a model of
//! the whole two-thread system with its transition rules.  Device I/O, window
//! rendering and the recognition engine itself live outside, behind these
//! contracts.

pub mod audio;
pub mod channel;
pub mod pipeline;
pub mod state;
