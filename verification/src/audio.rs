//! Audio buffers and the capture side of the audio device: a paused/active
//! flag plus the queue of samples the hardware accumulates for one session.

use vstd::prelude::*;

verus! {

/// One recording session's samples: signed 16-bit, single channel, at the
/// fixed capture rate.  Owned exclusively by whichever component holds it;
/// never shared.
pub struct AudioBuffer {
    pub samples: Vec<i16>,
}

impl View for AudioBuffer {
    type V = Seq<i16>;

    open spec fn view(&self) -> Seq<i16> {
        self.samples@
    }
}

impl AudioBuffer {
    /// An empty buffer.
    pub fn new() -> (b: AudioBuffer)
        ensures
            b@ == Seq::<i16>::empty(),
    {
        AudioBuffer { samples: Vec::new() }
    }

    /// How many samples the buffer holds.
    pub fn len(&self) -> (n: usize)
        ensures
            n == self@.len(),
    {
        self.samples.len()
    }

    /// Whether the buffer holds no samples at all.
    pub fn is_empty(&self) -> (r: bool)
        ensures
            r == (self@.len() == 0),
    {
        self.samples.len() == 0
    }
}

/// The capture queue of the audio device for one microphone: the device is
/// either paused or actively enqueueing, and `queued` is what the hardware
/// has accumulated since the session began.
pub struct CaptureQueue {
    pub active: bool,
    pub queued: Vec<i16>,
}

impl CaptureQueue {
    /// A fresh device queue: paused, nothing accumulated.
    pub fn new() -> (q: CaptureQueue)
        ensures
            !q.active,
            q.queued@ == Seq::<i16>::empty(),
    {
        CaptureQueue { active: false, queued: Vec::new() }
    }

    /// Resume capture.  A no-op if the device is already active; queued
    /// samples are kept either way.
    pub fn start(&mut self)
        ensures
            final(self).active,
            final(self).queued@ == old(self).queued@,
    {
        self.active = true;
    }

    /// The hardware hands over freshly captured samples.  They accumulate
    /// only while the device is active; a paused device discards them.
    pub fn feed(&mut self, samples: Vec<i16>)
        ensures
            final(self).active == old(self).active,
            final(self).queued@ == (if old(self).active {
                old(self).queued@ + samples@
            } else {
                old(self).queued@
            }),
    {
        if self.active {
            let mut incoming = samples;
            self.queued.append(&mut incoming);
        }
    }

    /// Pause the device, then remove and return everything queued as one
    /// contiguous buffer, leaving the queue empty.  To be called exactly once
    /// per session, only while active.  On an empty queue this succeeds and
    /// returns an empty buffer.
    pub fn stop_and_drain(&mut self) -> (b: AudioBuffer)
        requires
            old(self).active,
        ensures
            !final(self).active,
            final(self).queued@ == Seq::<i16>::empty(),
            b@ == old(self).queued@,
    {
        self.active = false;
        let drained = self.queued.split_off(0);
        AudioBuffer { samples: drained }
    }

    /// Discard everything queued without returning it, pausing the device;
    /// used when the pipeline shuts down and the device is torn away.
    pub fn clear(&mut self)
        ensures
            !final(self).active,
            final(self).queued@ == Seq::<i16>::empty(),
    {
        self.active = false;
        self.queued.clear();
    }
}

} // verus!
