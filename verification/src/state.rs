//! The recording state machine: two states, toggled by the push-to-talk key,
//! and the directive the control loop must carry out on each input event.

use vstd::prelude::*;

verus! {

/// Whether the main loop is currently capturing microphone audio.
#[derive(Clone, Copy, PartialEq, Eq, Structural, Debug)]
pub enum RecorderState {
    Idle,
    Recording,
}

/// Whether the recognition worker is waiting for a buffer or running the
/// engine.  Processing is strictly sequential: the worker holds the engine
/// exclusively and returns to `Idle` after every call, successful or not.
#[derive(Clone, Copy, PartialEq, Eq, Structural, Debug)]
pub enum WorkerState {
    Idle,
    Processing,
}

/// An input event, as the control loop sees it once the event queue has been
/// drained and mapped away from the windowing layer.
#[derive(Clone, Copy, PartialEq, Eq, Structural, Debug)]
pub enum InputEvent {
    /// Quit request or escape key: leave the loop after releasing capture
    /// resources.
    Quit,
    /// The push-to-talk toggle key.
    Toggle,
    /// Any other event: ignored.
    Other,
}

/// What the control loop must do in response to one input event.
#[derive(Clone, Copy, PartialEq, Eq, Structural, Debug)]
pub enum Directive {
    /// Clear the capture queue and leave the loop.
    Shutdown,
    /// Begin a session: resume the capture device.
    StartCapture,
    /// End the session: drain the capture queue, hand the buffer to the
    /// worker, clear the displayed transcript.
    StopAndEmit,
    /// Nothing to do.
    Ignore,
}

/// The state after one toggle event.
pub open spec fn toggled(s: RecorderState) -> RecorderState {
    match s {
        RecorderState::Idle => RecorderState::Recording,
        RecorderState::Recording => RecorderState::Idle,
    }
}

/// The state after `n` toggle events.
pub open spec fn toggled_n(s: RecorderState, n: nat) -> RecorderState
    decreases n,
{
    if n == 0 {
        s
    } else {
        toggled(toggled_n(s, (n - 1) as nat))
    }
}

/// The toggle alternates strictly: starting from `Idle`, an odd number of
/// toggle events leaves the recorder `Recording` and an even number leaves it
/// `Idle`, however the events are spaced in time.
pub proof fn lemma_toggle_alternation(n: nat)
    ensures
        toggled_n(RecorderState::Idle, n) == (if n % 2 == 0 {
            RecorderState::Idle
        } else {
            RecorderState::Recording
        }),
    decreases n,
{
    if n > 0 {
        lemma_toggle_alternation((n - 1) as nat);
    }
}

/// Toggling first and counting after is counting one more toggle: the order
/// in which the flips compose does not matter.
pub proof fn lemma_toggled_n_shift(s: RecorderState, n: nat)
    ensures
        toggled_n(toggled(s), n) == toggled_n(s, n + 1),
    decreases n,
{
    if n == 0 {
        assert(toggled_n(s, 1) == toggled(toggled_n(s, 0)));
    } else {
        lemma_toggled_n_shift(s, (n - 1) as nat);
        assert(toggled_n(toggled(s), n) == toggled(toggled_n(toggled(s), (n - 1) as nat)));
        assert(toggled_n(s, n + 1) == toggled(toggled_n(s, n)));
    }
}

/// One toggle event applied to the recorder.
pub fn toggle(s: RecorderState) -> (t: RecorderState)
    ensures
        t == toggled(s),
{
    match s {
        RecorderState::Idle => RecorderState::Recording,
        RecorderState::Recording => RecorderState::Idle,
    }
}

/// The directive an input event demands in a given recorder state.
pub open spec fn decision(s: RecorderState, ev: InputEvent) -> Directive {
    match ev {
        InputEvent::Quit => Directive::Shutdown,
        InputEvent::Toggle => match s {
            RecorderState::Recording => Directive::StopAndEmit,
            RecorderState::Idle => Directive::StartCapture,
        },
        InputEvent::Other => Directive::Ignore,
    }
}

/// Decide what one input event asks the control loop to do.
pub fn decide(s: RecorderState, ev: InputEvent) -> (d: Directive)
    ensures
        d == decision(s, ev),
{
    match ev {
        InputEvent::Quit => Directive::Shutdown,
        InputEvent::Toggle => match s {
            RecorderState::Recording => Directive::StopAndEmit,
            RecorderState::Idle => Directive::StartCapture,
        },
        InputEvent::Other => Directive::Ignore,
    }
}

} // verus!
