use voice_poc::audio::{AudioBuffer, CaptureQueue};
use voice_poc::channel::Channel;
use voice_poc::state::{decide, toggle, Directive, InputEvent, RecorderState};

#[test]
fn toggle_alternates_strictly() {
    let mut s = RecorderState::Idle;
    for n in 1..=6 {
        s = toggle(s);
        if n % 2 == 1 {
            assert_eq!(s, RecorderState::Recording);
        } else {
            assert_eq!(s, RecorderState::Idle);
        }
    }
}

#[test]
fn decide_covers_every_event() {
    assert_eq!(decide(RecorderState::Idle, InputEvent::Quit), Directive::Shutdown);
    assert_eq!(decide(RecorderState::Recording, InputEvent::Quit), Directive::Shutdown);
    assert_eq!(decide(RecorderState::Idle, InputEvent::Toggle), Directive::StartCapture);
    assert_eq!(decide(RecorderState::Recording, InputEvent::Toggle), Directive::StopAndEmit);
    assert_eq!(decide(RecorderState::Idle, InputEvent::Other), Directive::Ignore);
    assert_eq!(decide(RecorderState::Recording, InputEvent::Other), Directive::Ignore);
}

#[test]
fn audio_buffer_starts_empty() {
    let b = AudioBuffer::new();
    assert!(b.is_empty());
    assert_eq!(b.len(), 0);
}

#[test]
fn empty_session_drains_empty_buffer() {
    let mut q = CaptureQueue::new();
    q.start();
    let b = q.stop_and_drain();
    assert!(b.is_empty());
    assert_eq!(b.len(), 0);
    assert!(!q.active);
    assert!(q.queued.is_empty());
}

#[test]
fn samples_accumulate_only_while_active() {
    let mut q = CaptureQueue::new();
    q.feed(vec![1, 2]);
    assert!(q.queued.is_empty());
    q.start();
    q.feed(vec![3, 4]);
    q.feed(vec![5]);
    let b = q.stop_and_drain();
    assert_eq!(b.samples, vec![3, 4, 5]);
    assert!(q.queued.is_empty());
}

#[test]
fn start_twice_keeps_queued_samples() {
    let mut q = CaptureQueue::new();
    q.start();
    q.feed(vec![7, 8]);
    q.start();
    let b = q.stop_and_drain();
    assert_eq!(b.samples, vec![7, 8]);
}

#[test]
fn clear_discards_without_returning() {
    let mut q = CaptureQueue::new();
    q.start();
    q.feed(vec![9, 9, 9]);
    q.clear();
    assert!(q.queued.is_empty());
    assert!(!q.active);
}

#[test]
fn channel_receives_in_send_order() {
    let mut c: Channel<String> = Channel::new();
    c.send(String::from("first"));
    c.send(String::from("second"));
    assert_eq!(c.len(), 2);
    assert_eq!(c.try_receive().as_deref(), Some("first"));
    assert_eq!(c.try_receive().as_deref(), Some("second"));
    assert!(c.try_receive().is_none());
    assert!(c.is_empty());
}

#[test]
fn channel_empty_receive_returns_none_at_once() {
    let mut c: Channel<i16> = Channel::new();
    assert!(c.try_receive().is_none());
    assert!(c.is_empty());
    c.send(42);
    assert_eq!(c.try_receive(), Some(42));
    assert!(c.try_receive().is_none());
}
