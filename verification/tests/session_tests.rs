use local_whisper::controller::{
    handle_press, handle_release, plan_hotkey_event, toggle_recording, CaptureAction, HotkeyEvent,
};
use local_whisper::session::{stop_recording, RecordingSession};

#[test]
fn hotkey_transition_table() {
    assert_eq!(plan_hotkey_event(false, HotkeyEvent::TogglePress), CaptureAction::StartCapture);
    assert_eq!(plan_hotkey_event(true, HotkeyEvent::TogglePress), CaptureAction::StopCapture);
    assert_eq!(plan_hotkey_event(false, HotkeyEvent::PttPress), CaptureAction::StartCapture);
    assert_eq!(plan_hotkey_event(true, HotkeyEvent::PttPress), CaptureAction::Ignore);
    assert_eq!(plan_hotkey_event(false, HotkeyEvent::PttRelease), CaptureAction::Ignore);
    assert_eq!(plan_hotkey_event(true, HotkeyEvent::PttRelease), CaptureAction::StopCapture);
}

#[test]
fn double_ptt_press_records_exactly_once() {
    let mut session = RecordingSession::new();
    assert_eq!(handle_press(&session), CaptureAction::StartCapture);
    session.begin_capture(48000);
    assert!(session.is_recording());
    // The second press without a release is a no-op.
    assert_eq!(handle_press(&session), CaptureAction::Ignore);
    assert!(session.is_recording());
    assert_eq!(handle_release(&session), CaptureAction::StopCapture);
    let out = stop_recording(&mut session).unwrap();
    assert!(out.is_empty());
    assert!(!session.is_recording());
}

#[test]
fn double_toggle_returns_to_idle() {
    let mut session = RecordingSession::new();
    assert_eq!(toggle_recording(&session), CaptureAction::StartCapture);
    session.begin_capture(44100);
    assert_eq!(toggle_recording(&session), CaptureAction::StopCapture);
    let _ = stop_recording(&mut session).unwrap();
    assert!(!session.is_recording());
    assert_eq!(toggle_recording(&session), CaptureAction::StartCapture);
}

#[test]
fn stray_release_while_idle_is_ignored() {
    let session = RecordingSession::new();
    assert_eq!(handle_release(&session), CaptureAction::Ignore);
    assert!(!session.is_recording());
}

#[test]
fn stop_with_zero_samples_returns_empty_without_error() {
    let mut session = RecordingSession::new();
    session.begin_capture(44100);
    let out = stop_recording(&mut session).unwrap();
    assert!(out.is_empty());
    assert!(!session.is_recording());
}

#[test]
fn stop_without_a_recording_returns_empty_without_error() {
    let mut session = RecordingSession::new();
    let out = stop_recording(&mut session).unwrap();
    assert!(out.is_empty());
}

#[test]
fn one_second_at_48000_resamples_to_16000() {
    let mut session = RecordingSession::new();
    session.begin_capture(48000);
    // One second of mono audio arrives through the capture callback in
    // 100 chunks of 480 samples.
    let chunk: Vec<i32> = (0..480).collect();
    for _ in 0..100 {
        session.append_frame(&chunk, 1);
    }
    let out = stop_recording(&mut session).unwrap();
    assert_eq!(out.len(), 16000);
    assert!(!session.is_recording());
}

#[test]
fn capture_at_engine_rate_is_passed_through() {
    let mut session = RecordingSession::new();
    session.begin_capture(16000);
    session.append_frame(&vec![100, 200], 2);
    session.append_frame(&vec![7], 1);
    let out = stop_recording(&mut session).unwrap();
    assert_eq!(out, vec![150, 7]);
}

#[test]
fn stereo_callback_frames_are_downmixed_into_the_buffer() {
    let mut session = RecordingSession::new();
    session.begin_capture(16000);
    session.append_frame(&vec![10, 20, 30, 40], 2);
    let out = stop_recording(&mut session).unwrap();
    assert_eq!(out, vec![15, 35]);
}

#[test]
fn a_new_recording_starts_with_an_empty_buffer() {
    let mut session = RecordingSession::new();
    session.begin_capture(16000);
    session.append_frame(&vec![1, 2, 3], 1);
    let first = stop_recording(&mut session).unwrap();
    assert_eq!(first, vec![1, 2, 3]);
    session.begin_capture(16000);
    let second = stop_recording(&mut session).unwrap();
    assert!(second.is_empty());
}
