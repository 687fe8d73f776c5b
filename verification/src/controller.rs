//! The hotkey state machine: raw press/release/toggle events become
//! start/stop decisions against the recording session.
//!
//! Toggle and push-to-talk bindings fire over the same session state, so
//! every transition is guarded: a second press while recording, or a release
//! while idle, is a no-op. The control thread applies the returned action to
//! the capture engine.

use vstd::prelude::*;
use crate::session::RecordingSession;

verus! {

/// A raw hotkey notification, as delivered by the platform shortcut listener.
#[derive(Clone, Copy, PartialEq, Eq, Structural, Debug)]
pub enum HotkeyEvent {
    /// The toggle binding was pressed (press to start, press again to stop).
    TogglePress,
    /// The push-to-talk binding was pressed (hold to record).
    PttPress,
    /// The push-to-talk binding was released.
    PttRelease,
}

/// What the control thread must do with the capture engine after an event.
#[derive(Clone, Copy, PartialEq, Eq, Structural, Debug)]
pub enum CaptureAction {
    /// Open a stream and start accumulating samples.
    StartCapture,
    /// Tear the stream down and hand the recording to transcription.
    StopCapture,
    /// The event is redundant in the current state: do nothing.
    Ignore,
}

/// The transition table: which action an event demands while `recording`
/// capture is (or is not) under way.
pub open spec fn capture_action_spec(recording: bool, event: HotkeyEvent) -> CaptureAction {
    match event {
        HotkeyEvent::TogglePress => if recording {
            CaptureAction::StopCapture
        } else {
            CaptureAction::StartCapture
        },
        HotkeyEvent::PttPress => if recording {
            CaptureAction::Ignore
        } else {
            CaptureAction::StartCapture
        },
        HotkeyEvent::PttRelease => if recording {
            CaptureAction::StopCapture
        } else {
            CaptureAction::Ignore
        },
    }
}

/// Whether capture is running once the action for `event` has been applied.
pub open spec fn recording_after_spec(recording: bool, event: HotkeyEvent) -> bool {
    match capture_action_spec(recording, event) {
        CaptureAction::StartCapture => true,
        CaptureAction::StopCapture => false,
        CaptureAction::Ignore => recording,
    }
}

/// Decide what a hotkey event means in the current recording state.
pub fn plan_hotkey_event(recording: bool, event: HotkeyEvent) -> (action: CaptureAction)
    ensures
        action == capture_action_spec(recording, event),
{
    match event {
        HotkeyEvent::TogglePress => if recording {
            CaptureAction::StopCapture
        } else {
            CaptureAction::StartCapture
        },
        HotkeyEvent::PttPress => if recording {
            CaptureAction::Ignore
        } else {
            CaptureAction::StartCapture
        },
        HotkeyEvent::PttRelease => if recording {
            CaptureAction::StopCapture
        } else {
            CaptureAction::Ignore
        },
    }
}

/// A push-to-talk press: start capture, unless one is already running.
pub fn handle_press(session: &RecordingSession) -> (action: CaptureAction)
    ensures
        action == capture_action_spec(session.is_recording_spec(), HotkeyEvent::PttPress),
{
    plan_hotkey_event(session.is_recording(), HotkeyEvent::PttPress)
}

/// A push-to-talk release: stop capture, unless none is running.
pub fn handle_release(session: &RecordingSession) -> (action: CaptureAction)
    ensures
        action == capture_action_spec(session.is_recording_spec(), HotkeyEvent::PttRelease),
{
    plan_hotkey_event(session.is_recording(), HotkeyEvent::PttRelease)
}

/// A toggle press: start when idle, stop when recording.
pub fn toggle_recording(session: &RecordingSession) -> (action: CaptureAction)
    ensures
        action == capture_action_spec(session.is_recording_spec(), HotkeyEvent::TogglePress),
{
    plan_hotkey_event(session.is_recording(), HotkeyEvent::TogglePress)
}

/// A second push-to-talk press without a release in between is ignored:
/// the session records exactly once, and the duplicate event asks for
/// nothing from the capture engine.
pub proof fn lemma_ptt_press_idempotent(recording: bool)
    ensures
        recording_after_spec(recording, HotkeyEvent::PttPress) == true,
        recording_after_spec(
            recording_after_spec(recording, HotkeyEvent::PttPress),
            HotkeyEvent::PttPress,
        ) == true,
        capture_action_spec(
            recording_after_spec(recording, HotkeyEvent::PttPress),
            HotkeyEvent::PttPress,
        ) == CaptureAction::Ignore,
{
}

/// Two toggle presses in a row return the session to the state it started
/// in: the first starts (or stops) capture and the second undoes it.
pub proof fn lemma_toggle_returns(recording: bool)
    ensures
        recording_after_spec(
            recording_after_spec(recording, HotkeyEvent::TogglePress),
            HotkeyEvent::TogglePress,
        ) == recording,
{
}

/// A push-to-talk release while idle is a no-op: the guards make a stray
/// release (or a release after a toggle already stopped capture) harmless.
pub proof fn lemma_stray_release_ignored()
    ensures
        capture_action_spec(false, HotkeyEvent::PttRelease) == CaptureAction::Ignore,
        recording_after_spec(false, HotkeyEvent::PttRelease) == false,
{
}

} // verus!
