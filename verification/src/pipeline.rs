//! The whole pipeline in one place: the abstract state of the two threads of
//! control and the channels between them, the transition each pipeline event
//! performs on that state, the executable model proved against those
//! transitions, and the laws the transitions obey.
//!
//! The control loop owns the recorder state, the capture queue and the
//! display; the worker owns the engine and at most one buffer in progress;
//! the audio channel carries drained buffers to the worker and the text
//! channel carries transcripts back.

use vstd::prelude::*;

use crate::audio::{AudioBuffer, CaptureQueue};
use crate::channel::Channel;
use crate::state::{toggled, toggled_n, InputEvent, RecorderState, WorkerState};

verus! {

/// A transcript: the immutable text the engine produced for one session.
pub type Transcript = String;

/// Everything the contracts say about the pipeline: the recorder state, the
/// capture device, the contents of the two channels, the buffer the worker is
/// currently recognising, the displayed transcript, and whether a quit
/// request has been seen.
#[verifier::ext_equal]
pub ghost struct SystemView {
    pub recorder: RecorderState,
    pub capture_active: bool,
    pub captured: Seq<i16>,
    pub audio_ch: Seq<Seq<i16>>,
    pub text_ch: Seq<Seq<char>>,
    pub pending: Option<Seq<i16>>,
    pub display: Option<Seq<char>>,
    pub quit: bool,
}

/// The worker's own two-state machine, read off the buffer in progress.
pub open spec fn worker_state(v: SystemView) -> WorkerState {
    match v.pending {
        Some(_) => WorkerState::Processing,
        None => WorkerState::Idle,
    }
}

/// Well-formedness: until a quit request is seen, the capture device is
/// active exactly while the recorder is in its recording state.
pub open spec fn wf(v: SystemView) -> bool {
    !v.quit ==> (v.recorder == RecorderState::Recording <==> v.capture_active)
}

/// The state a freshly built pipeline starts in.
pub open spec fn init() -> SystemView {
    SystemView {
        recorder: RecorderState::Idle,
        capture_active: false,
        captured: Seq::empty(),
        audio_ch: Seq::empty(),
        text_ch: Seq::empty(),
        pending: None,
        display: None,
        quit: false,
    }
}

/// The capture hardware accumulates freshly recorded samples, but only while
/// the device is active.
pub open spec fn step_feed(v: SystemView, samples: Seq<i16>) -> SystemView {
    if v.capture_active {
        SystemView { captured: v.captured + samples, ..v }
    } else {
        v
    }
}

/// One input event handled by the control loop.
///
/// - A quit request clears the capture queue and pauses the device without
///   sending anything, and marks the pipeline as shutting down.
/// - A toggle while idle starts a session; a toggle while recording drains
///   the session's samples into one buffer, sends it to the worker and clears
///   the displayed transcript of the previous session.
/// - Any other event changes nothing.
pub open spec fn step_input(v: SystemView, ev: InputEvent) -> SystemView {
    match ev {
        InputEvent::Quit => SystemView {
            capture_active: false,
            captured: Seq::empty(),
            quit: true,
            ..v
        },
        InputEvent::Toggle => match v.recorder {
            RecorderState::Recording => SystemView {
                recorder: RecorderState::Idle,
                capture_active: false,
                captured: Seq::empty(),
                audio_ch: v.audio_ch.push(v.captured),
                display: None,
                ..v
            },
            RecorderState::Idle => SystemView {
                recorder: RecorderState::Recording,
                capture_active: true,
                ..v
            },
        },
        InputEvent::Other => v,
    }
}

/// The control loop polls the text channel: if a transcript is ready it
/// becomes the displayed text, otherwise nothing changes.
pub open spec fn step_poll_text(v: SystemView) -> SystemView {
    if v.text_ch.len() > 0 {
        SystemView { text_ch: v.text_ch.drop_first(), display: Some(v.text_ch.first()), ..v }
    } else {
        v
    }
}

/// The idle worker polls the audio channel: if a buffer is ready it is taken
/// off the channel and becomes the buffer in progress.  A worker already
/// processing does not poll, and an empty channel changes nothing.
pub open spec fn step_worker_poll(v: SystemView) -> SystemView {
    if v.pending is None && v.audio_ch.len() > 0 {
        SystemView { audio_ch: v.audio_ch.drop_first(), pending: Some(v.audio_ch.first()), ..v }
    } else {
        v
    }
}

/// The recognition call on the buffer in progress returns.  On success the
/// transcript is sent on the text channel; on failure the buffer is simply
/// dropped.  Either way the worker returns to idle and keeps running.
pub open spec fn step_worker_finish(v: SystemView, outcome: Option<Seq<char>>) -> SystemView {
    match v.pending {
        Some(_) => match outcome {
            Some(t) => SystemView { pending: None, text_ch: v.text_ch.push(t), ..v },
            None => SystemView { pending: None, ..v },
        },
        None => v,
    }
}

/// Every input event pending at the start of a frame, handled in order; a
/// quit request ends the drain, exactly as it ends the loop.
pub open spec fn step_events(v: SystemView, evs: Seq<InputEvent>) -> SystemView
    decreases evs.len(),
{
    if evs.len() == 0 || v.quit {
        v
    } else {
        step_events(step_input(v, evs.first()), evs.drop_first())
    }
}

/// One iteration of the render loop, as far as it decides anything: poll the
/// text channel once, then drain and handle every pending input event —
/// never just one.  Re-rendering the frame itself changes no pipeline state.
pub open spec fn step_frame(v: SystemView, evs: Seq<InputEvent>) -> SystemView {
    step_events(step_poll_text(v), evs)
}

/// The view of a transcript that may be absent.
pub open spec fn text_view(o: Option<Transcript>) -> Option<Seq<char>> {
    match o {
        Some(t) => Some(t@),
        None => None,
    }
}

/// The executable pipeline model: the state both threads of control act on,
/// each method proved to perform exactly the matching transition.
pub struct System {
    pub recorder: RecorderState,
    pub capture: CaptureQueue,
    pub audio_ch: Channel<AudioBuffer>,
    pub text_ch: Channel<Transcript>,
    pub pending: Option<AudioBuffer>,
    pub display: Option<Transcript>,
    pub quit: bool,
}

impl View for System {
    type V = SystemView;

    open spec fn view(&self) -> SystemView {
        SystemView {
            recorder: self.recorder,
            capture_active: self.capture.active,
            captured: self.capture.queued@,
            audio_ch: self.audio_ch@.map_values(|b: AudioBuffer| b@),
            text_ch: self.text_ch@.map_values(|t: Transcript| t@),
            pending: match self.pending {
                Some(b) => Some(b@),
                None => None,
            },
            display: text_view(self.display),
            quit: self.quit,
        }
    }
}

impl System {
    /// A fresh pipeline: idle recorder, paused device, empty channels,
    /// nothing displayed.
    pub fn new() -> (s: System)
        ensures
            s@ == init(),
            wf(s@),
    {
        let s = System {
            recorder: RecorderState::Idle,
            capture: CaptureQueue::new(),
            audio_ch: Channel::new(),
            text_ch: Channel::new(),
            pending: None,
            display: None,
            quit: false,
        };
        proof {
            assert(s@ =~~= init());
        }
        s
    }

    /// The capture hardware hands over freshly recorded samples.
    pub fn feed(&mut self, samples: Vec<i16>)
        ensures
            final(self)@ == step_feed(old(self)@, samples@),
    {
        let ghost pre = self@;
        self.capture.feed(samples);
        proof {
            assert(self@ =~~= step_feed(pre, samples@));
        }
    }

    /// Handle one input event on the control loop, performing exactly the
    /// `step_input` transition.  Not called once a quit request has been
    /// seen: the loop has ended and the device is gone.
    pub fn on_input(&mut self, ev: InputEvent)
        requires
            wf(old(self)@),
            !old(self)@.quit,
        ensures
            final(self)@ == step_input(old(self)@, ev),
            wf(final(self)@),
    {
        let ghost pre = self@;
        match ev {
            InputEvent::Quit => {
                self.capture.clear();
                self.quit = true;
            },
            InputEvent::Toggle => {
                match self.recorder {
                    RecorderState::Recording => {
                        self.recorder = RecorderState::Idle;
                        let buf = self.capture.stop_and_drain();
                        self.audio_ch.send(buf);
                        self.display = None;
                    },
                    RecorderState::Idle => {
                        self.recorder = RecorderState::Recording;
                        self.capture.start();
                    },
                }
            },
            InputEvent::Other => {},
        }
        proof {
            assert(self@ =~~= step_input(pre, ev));
        }
    }

    /// The control loop polls the text channel for a finished transcript.
    pub fn poll_text(&mut self)
        ensures
            final(self)@ == step_poll_text(old(self)@),
    {
        let ghost pre = self@;
        match self.text_ch.try_receive() {
            Some(t) => {
                self.display = Some(t);
            },
            None => {},
        }
        proof {
            assert(self@ =~~= step_poll_text(pre));
        }
    }

    /// The idle worker polls the audio channel for the next session's buffer.
    pub fn worker_poll(&mut self)
        ensures
            final(self)@ == step_worker_poll(old(self)@),
    {
        let ghost pre = self@;
        if self.pending.is_none() {
            match self.audio_ch.try_receive() {
                Some(b) => {
                    self.pending = Some(b);
                },
                None => {},
            }
        }
        proof {
            assert(self@ =~~= step_worker_poll(pre));
        }
    }

    /// The recognition call on the buffer in progress returns with `outcome`:
    /// the transcript on success, nothing on failure.  The worker always
    /// returns to idle, whatever the outcome, and a failure sends nothing.
    pub fn worker_finish(&mut self, outcome: Option<Transcript>)
        ensures
            final(self)@ == step_worker_finish(old(self)@, text_view(outcome)),
            worker_state(final(self)@) == WorkerState::Idle,
    {
        let ghost pre = self@;
        if self.pending.is_some() {
            self.pending = None;
            match outcome {
                Some(t) => {
                    self.text_ch.send(t);
                },
                None => {},
            }
        }
        proof {
            assert(self@ =~~= step_worker_finish(pre, text_view(outcome)));
        }
    }

    /// Handle, in order, every input event pending at the start of a frame —
    /// never just one.  A quit request ends the drain: once the loop is
    /// over, later events of that frame are not acted on.
    pub fn on_events(&mut self, evs: &Vec<InputEvent>)
        requires
            wf(old(self)@),
        ensures
            final(self)@ == step_events(old(self)@, evs@),
            wf(final(self)@),
    {
        let ghost pre = self@;
        let n = evs.len();
        proof {
            assert(evs@.subrange(0, n as int) =~= evs@);
        }
        let mut i: usize = 0;
        while i < n && !self.quit
            invariant
                i <= n,
                n == evs@.len(),
                wf(self@),
                step_events(pre, evs@) == step_events(self@, evs@.subrange(i as int, n as int)),
            decreases n - i,
        {
            let ghost before = self@;
            let ev = evs[i];
            self.on_input(ev);
            proof {
                let rest = evs@.subrange(i as int, n as int);
                assert(rest.first() == evs@[i as int]);
                assert(rest.drop_first() =~= evs@.subrange(i as int + 1, n as int));
                assert(step_events(before, rest) == step_events(self@, rest.drop_first()));
            }
            i = i + 1;
        }
        proof {
            if i == n {
                assert(evs@.subrange(i as int, n as int).len() == 0);
            }
        }
    }

    /// One render-loop iteration's decisions: poll once for a finished
    /// transcript, then drain and handle the frame's input events.  Returns
    /// whether the loop is to keep running.  Re-rendering the frame itself
    /// changes no pipeline state.
    pub fn frame(&mut self, evs: &Vec<InputEvent>) -> (running: bool)
        requires
            wf(old(self)@),
        ensures
            final(self)@ == step_frame(old(self)@, evs@),
            wf(final(self)@),
            running == !final(self)@.quit,
    {
        self.poll_text();
        self.on_events(evs);
        !self.quit
    }
}

/// Any one thing that can happen to the pipeline: an event either thread of
/// control performs, or the capture hardware handing samples over.
pub ghost enum PipelineEvent {
    /// The hardware hands freshly captured samples over.
    Feed(Seq<i16>),
    /// The control loop handles one input event.
    Input(InputEvent),
    /// The control loop polls the text channel.
    PollText,
    /// The idle worker polls the audio channel.
    WorkerPoll,
    /// The recognition call returns, with a transcript or with a failure.
    WorkerFinish(Option<Seq<char>>),
}

/// The transition one pipeline event performs.
pub open spec fn step(v: SystemView, ev: PipelineEvent) -> SystemView {
    match ev {
        PipelineEvent::Feed(samples) => step_feed(v, samples),
        PipelineEvent::Input(e) => step_input(v, e),
        PipelineEvent::PollText => step_poll_text(v),
        PipelineEvent::WorkerPoll => step_worker_poll(v),
        PipelineEvent::WorkerFinish(outcome) => step_worker_finish(v, outcome),
    }
}

/// `v` after a whole trace of pipeline events, in order.
pub open spec fn run(v: SystemView, tr: Seq<PipelineEvent>) -> SystemView
    decreases tr.len(),
{
    if tr.len() == 0 {
        v
    } else {
        run(step(v, tr.first()), tr.drop_first())
    }
}

/// Extending a trace by one event runs the trace, then the event.
pub proof fn lemma_run_snoc(v: SystemView, tr: Seq<PipelineEvent>, ev: PipelineEvent)
    ensures
        run(v, tr.push(ev)) == step(run(v, tr), ev),
    decreases tr.len(),
{
    if tr.len() == 0 {
        let one = tr.push(ev);
        assert(one.first() == ev);
        assert(one.drop_first() =~= Seq::<PipelineEvent>::empty());
        assert(run(v, one) == run(step(v, ev), one.drop_first()));
        assert(run(step(v, ev), one.drop_first()) == step(v, ev));
    } else {
        assert(tr.push(ev).first() == tr.first());
        assert(tr.push(ev).drop_first() =~= tr.drop_first().push(ev));
        lemma_run_snoc(step(v, tr.first()), tr.drop_first(), ev);
        assert(run(v, tr.push(ev)) == run(step(v, tr.first()), tr.drop_first().push(ev)));
        assert(run(v, tr) == run(step(v, tr.first()), tr.drop_first()));
    }
}

/// Well-formedness holds in every reachable state: each pipeline event
/// preserves it, whatever the event carries.
pub proof fn lemma_wf_preserved(v: SystemView, ev: PipelineEvent)
    requires
        wf(v),
    ensures
        wf(step(v, ev)),
{
}

/// How many toggle inputs a trace holds.
pub open spec fn toggle_count(tr: Seq<PipelineEvent>) -> nat
    decreases tr.len(),
{
    if tr.len() == 0 {
        0
    } else {
        (if tr.first() == PipelineEvent::Input(InputEvent::Toggle) {
            1nat
        } else {
            0nat
        }) + toggle_count(tr.drop_first())
    }
}

/// The recorder's state after any trace depends only on how many toggle
/// inputs the trace holds — not on their timing, and not on anything else
/// the pipeline does in between: no other event touches the recorder.
/// With `lemma_toggle_alternation` this is the strict alternation law for
/// the whole pipeline.
pub proof fn lemma_recorder_depends_only_on_toggles(v: SystemView, tr: Seq<PipelineEvent>)
    ensures
        run(v, tr).recorder == toggled_n(v.recorder, toggle_count(tr)),
    decreases tr.len(),
{
    if tr.len() > 0 {
        let w = step(v, tr.first());
        lemma_recorder_depends_only_on_toggles(w, tr.drop_first());
        if tr.first() == PipelineEvent::Input(InputEvent::Toggle) {
            assert(w.recorder == toggled(v.recorder));
            crate::state::lemma_toggled_n_shift(v.recorder, toggle_count(tr.drop_first()));
        } else {
            assert(w.recorder == v.recorder);
        }
    }
}

/// Whether the event completes a recording session: a toggle handled while
/// the recorder is recording, which drains the session's samples onto the
/// audio channel.
pub open spec fn completes_session(v: SystemView, ev: PipelineEvent) -> bool {
    v.recorder == RecorderState::Recording && ev == PipelineEvent::Input(InputEvent::Toggle)
}

/// At most one audio buffer is in flight anywhere along a trace, provided
/// the worker has emptied the channel before each session completes.  The
/// toggle state machine alone does not force that proviso: completing a
/// second session while an earlier buffer still sits unpolled on the channel
/// is the one way to exceed one, and the proviso records exactly that
/// obligation on the trace.
pub proof fn lemma_single_buffer_in_flight_trace(v: SystemView, tr: Seq<PipelineEvent>, i: int)
    requires
        v.audio_ch.len() <= 1,
        0 <= i <= tr.len(),
        forall|j: int|
            0 <= j < tr.len() && completes_session(
                run(v, #[trigger] tr.subrange(0, j)),
                tr[j],
            ) ==> run(v, tr.subrange(0, j)).audio_ch.len() == 0,
    ensures
        run(v, tr.subrange(0, i)).audio_ch.len() <= 1,
    decreases i,
{
    if i == 0 {
        assert(tr.subrange(0, 0) =~= Seq::<PipelineEvent>::empty());
    } else {
        lemma_single_buffer_in_flight_trace(v, tr, i - 1);
        let prefix = tr.subrange(0, i - 1);
        let p = run(v, prefix);
        let e = tr[i - 1];
        assert(tr.subrange(0, i) =~= prefix.push(e));
        lemma_run_snoc(v, prefix, e);
        if completes_session(p, e) {
            assert(p.audio_ch.len() == 0);
        }
        assert(step(p, e).audio_ch.len() <= 1);
    }
}

/// At most one audio buffer is in flight: every pipeline transition keeps the
/// audio channel at no more than one queued buffer, provided the worker has
/// emptied the channel before a session completes.  (Completing a second
/// session while an earlier buffer still sits unpolled on the channel is the
/// one way to exceed that, and the toggle state machine alone does not forbid
/// it; the second requirement records exactly that obligation.)
pub proof fn lemma_single_buffer_in_flight(
    v: SystemView,
    ev: InputEvent,
    samples: Seq<i16>,
    outcome: Option<Seq<char>>,
)
    requires
        v.audio_ch.len() <= 1,
        v.recorder == RecorderState::Recording && ev == InputEvent::Toggle ==> v.audio_ch.len()
            == 0,
    ensures
        step_feed(v, samples).audio_ch.len() <= 1,
        step_input(v, ev).audio_ch.len() <= 1,
        step_poll_text(v).audio_ch.len() <= 1,
        step_worker_poll(v).audio_ch.len() <= 1,
        step_worker_finish(v, outcome).audio_ch.len() <= 1,
{
}

/// A quit request mid-recording discards the capture queue without sending
/// anything: the audio channel is exactly what it was, the queue is empty,
/// and the device is paused.
pub proof fn lemma_quit_sends_nothing(v: SystemView)
    ensures
        step_input(v, InputEvent::Quit).audio_ch == v.audio_ch,
        step_input(v, InputEvent::Quit).text_ch == v.text_ch,
        step_input(v, InputEvent::Quit).captured == Seq::<i16>::empty(),
        !step_input(v, InputEvent::Quit).capture_active,
        step_input(v, InputEvent::Quit).quit,
{
}

} // verus!
