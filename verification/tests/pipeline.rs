use voice_poc::pipeline::System;
use voice_poc::state::{InputEvent, RecorderState};

#[test]
fn silence_session_is_transcribed_and_displayed() {
    let mut sys = System::new();
    sys.on_input(InputEvent::Toggle);
    assert_eq!(sys.recorder, RecorderState::Recording);

    // one second of silence at the 16 kHz capture rate
    sys.feed(vec![0i16; 16000]);
    sys.on_input(InputEvent::Toggle);
    assert_eq!(sys.recorder, RecorderState::Idle);
    assert_eq!(sys.audio_ch.len(), 1);

    sys.worker_poll();
    assert_eq!(sys.audio_ch.len(), 0);
    assert_eq!(sys.pending.as_ref().unwrap().len(), 16000);

    sys.worker_finish(Some(String::from("hello")));
    assert!(sys.pending.is_none());
    assert_eq!(sys.text_ch.len(), 1);

    sys.poll_text();
    assert_eq!(sys.display.as_deref(), Some("hello"));
}

#[test]
fn recognition_failure_sends_nothing_and_worker_stays_responsive() {
    let mut sys = System::new();
    sys.on_input(InputEvent::Toggle);
    sys.feed(vec![1i16; 160]);
    sys.on_input(InputEvent::Toggle);
    sys.worker_poll();

    // the engine fails on this buffer: it is dropped, no transcript goes out
    sys.worker_finish(None);
    assert!(sys.pending.is_none());
    assert_eq!(sys.text_ch.len(), 0);
    sys.poll_text();
    assert!(sys.display.is_none());

    // a buffer sent shortly after is still picked up and processed
    sys.on_input(InputEvent::Toggle);
    sys.feed(vec![2i16; 320]);
    sys.on_input(InputEvent::Toggle);
    sys.worker_poll();
    assert_eq!(sys.pending.as_ref().unwrap().len(), 320);
    sys.worker_finish(Some(String::from("second try")));
    sys.poll_text();
    assert_eq!(sys.display.as_deref(), Some("second try"));
}

#[test]
fn quit_mid_recording_clears_capture_and_sends_no_audio() {
    let mut sys = System::new();
    sys.on_input(InputEvent::Toggle);
    sys.feed(vec![5i16; 800]);

    sys.on_input(InputEvent::Quit);
    assert!(sys.quit);
    assert!(sys.capture.queued.is_empty());
    assert!(!sys.capture.active);
    assert_eq!(sys.audio_ch.len(), 0);
    assert_eq!(sys.text_ch.len(), 0);
}

#[test]
fn rapid_toggles_keep_at_most_one_buffer_in_flight() {
    let mut sys = System::new();
    for session in 0..3u32 {
        sys.on_input(InputEvent::Toggle);
        sys.feed(vec![session as i16; 16]);
        sys.on_input(InputEvent::Toggle);
        assert_eq!(sys.audio_ch.len(), 1);
        sys.worker_poll();
        assert_eq!(sys.audio_ch.len(), 0);
        sys.worker_finish(None);
    }
}

#[test]
fn toggle_parity_holds_on_the_whole_pipeline() {
    let mut sys = System::new();
    for _ in 0..5 {
        sys.on_input(InputEvent::Toggle);
    }
    assert_eq!(sys.recorder, RecorderState::Recording);
    sys.on_input(InputEvent::Toggle);
    assert_eq!(sys.recorder, RecorderState::Idle);
}

#[test]
fn stopping_a_new_session_clears_the_displayed_transcript() {
    let mut sys = System::new();
    sys.on_input(InputEvent::Toggle);
    sys.feed(vec![3i16; 64]);
    sys.on_input(InputEvent::Toggle);
    sys.worker_poll();
    sys.worker_finish(Some(String::from("old words")));
    sys.poll_text();
    assert_eq!(sys.display.as_deref(), Some("old words"));

    sys.on_input(InputEvent::Toggle);
    sys.feed(vec![4i16; 64]);
    sys.on_input(InputEvent::Toggle);
    assert!(sys.display.is_none());
}

#[test]
fn empty_recording_flows_through_without_error() {
    let mut sys = System::new();
    sys.on_input(InputEvent::Toggle);
    sys.on_input(InputEvent::Toggle);
    assert_eq!(sys.audio_ch.len(), 1);
    sys.worker_poll();
    assert_eq!(sys.pending.as_ref().unwrap().len(), 0);
    sys.worker_finish(Some(String::from("")));
    sys.poll_text();
    assert_eq!(sys.display.as_deref(), Some(""));
}

#[test]
fn frame_polls_then_handles_every_pending_event() {
    let mut sys = System::new();
    let running = sys.frame(&vec![InputEvent::Other, InputEvent::Toggle, InputEvent::Other]);
    assert!(running);
    assert_eq!(sys.recorder, RecorderState::Recording);

    sys.feed(vec![1i16; 32]);
    // a stop and a quit arriving in the same frame: the session is sent,
    // then the loop ends
    let running = sys.frame(&vec![InputEvent::Toggle, InputEvent::Quit]);
    assert!(!running);
    assert!(sys.quit);
    assert_eq!(sys.audio_ch.len(), 1);
}

#[test]
fn events_after_a_quit_in_the_same_frame_are_not_acted_on() {
    let mut sys = System::new();
    let running = sys.frame(&vec![InputEvent::Quit, InputEvent::Toggle]);
    assert!(!running);
    assert_eq!(sys.recorder, RecorderState::Idle);
    assert!(!sys.capture.active);
}

#[test]
fn other_events_and_idle_polls_change_nothing() {
    let mut sys = System::new();
    sys.on_input(InputEvent::Other);
    sys.poll_text();
    sys.worker_poll();
    sys.worker_finish(Some(String::from("stray")));
    assert_eq!(sys.recorder, RecorderState::Idle);
    assert!(!sys.capture.active);
    assert_eq!(sys.audio_ch.len(), 0);
    // the worker was idle: a stray outcome sends no transcript
    assert_eq!(sys.text_ch.len(), 0);
    assert!(sys.display.is_none());
    assert!(!sys.quit);
}
