use tapeit::recorder::{
    after_mux, audio_finish_step, next_capture_step, state_name_str, AudioFinish, CaptureStep,
    RecordingState, ScreenRecorder, TempVideoAction,
};

type Recorder = ScreenRecorder<u32, &'static str>;

#[test]
fn new_recorder_is_idle() {
    let mut r = Recorder::new();
    assert_eq!(r.state(), RecordingState::Idle);
    assert!(!r.is_paused());
    assert_eq!(r.take_error(), None);
}

#[test]
fn start_from_idle_then_begin_records() {
    let mut r = Recorder::new();
    assert_eq!(r.start(), Ok(()));
    r.begin_recording(7, Some("mic"));
    assert_eq!(r.state(), RecordingState::Recording);
    assert!(!r.is_paused());
}

#[test]
fn start_refused_while_recording() {
    let mut r = Recorder::new();
    r.start().unwrap();
    r.begin_recording(1, None);
    assert_eq!(
        r.start(),
        Err("Cannot start: recorder is in Recording state".to_string())
    );
    assert_eq!(r.state(), RecordingState::Recording);
}

#[test]
fn start_refused_while_paused_or_encoding() {
    let mut r = Recorder::new();
    r.start().unwrap();
    r.begin_recording(1, None);
    r.pause().unwrap();
    assert_eq!(r.start(), Err("Cannot start: recorder is in Paused state".to_string()));
    r.enter_encoding();
    assert_eq!(r.start(), Err("Cannot start: recorder is in Encoding state".to_string()));
}

#[test]
fn pause_and_resume() {
    let mut r = Recorder::new();
    assert_eq!(r.pause(), Err("Not recording".to_string()));
    assert_eq!(r.resume(), Err("Not paused".to_string()));
    r.start().unwrap();
    r.begin_recording(3, None);
    assert_eq!(r.resume(), Err("Not paused".to_string()));
    assert_eq!(r.pause(), Ok(()));
    assert_eq!(r.state(), RecordingState::Paused);
    assert!(r.is_paused());
    assert_eq!(r.pause(), Err("Not recording".to_string()));
    assert_eq!(r.resume(), Ok(()));
    assert_eq!(r.state(), RecordingState::Recording);
    assert!(!r.is_paused());
}

#[test]
fn stop_hands_out_signal_and_audio_once() {
    let mut r = Recorder::new();
    r.start().unwrap();
    r.begin_recording(42, Some("audio"));
    let (audio, signal) = r.stop();
    assert_eq!(audio, Some("audio"));
    assert_eq!(signal, Ok(42));
    let (audio, signal) = r.stop();
    assert_eq!(audio, None);
    assert_eq!(signal, Err("No active recording to stop".to_string()));
}

#[test]
fn stop_without_recording_fails() {
    let mut r = Recorder::new();
    assert_eq!(r.stop(), (None, Err("No active recording to stop".to_string())));
}

#[test]
fn begin_without_audio_keeps_previous_audio() {
    let mut r = Recorder::new();
    r.start().unwrap();
    r.begin_recording(1, Some("first"));
    r.record_failure("boom".to_string());
    r.start().unwrap();
    r.begin_recording(2, None);
    assert_eq!(r.stop(), (Some("first"), Ok(2)));
}

#[test]
fn failure_is_reported_once_and_returns_to_idle() {
    let mut r = Recorder::new();
    r.start().unwrap();
    r.begin_recording(1, None);
    r.record_failure("Failed to build capturer: x".to_string());
    assert_eq!(r.state(), RecordingState::Idle);
    assert_eq!(r.take_error(), Some("Failed to build capturer: x".to_string()));
    assert_eq!(r.take_error(), None);
    assert_eq!(r.start(), Ok(()));
}

#[test]
fn session_round_trip_ends_idle() {
    let mut r = Recorder::new();
    r.start().unwrap();
    r.begin_recording(5, Some("a"));
    r.pause().unwrap();
    r.resume().unwrap();
    let _ = r.stop();
    r.enter_encoding();
    assert_eq!(r.state(), RecordingState::Encoding);
    r.return_to_idle();
    assert_eq!(r.state(), RecordingState::Idle);
    assert!(!r.is_paused());
    assert_eq!(r.stop(), (None, Err("No active recording to stop".to_string())));
}

#[test]
fn stop_while_paused_leaves_pause_flag_until_next_start() {
    let mut r = Recorder::new();
    r.start().unwrap();
    r.begin_recording(5, None);
    r.pause().unwrap();
    assert_eq!(r.stop().1, Ok(5));
    r.enter_encoding();
    r.return_to_idle();
    assert!(r.is_paused());
    r.start().unwrap();
    assert!(!r.is_paused());
}

#[test]
fn wants_audio_when_either_source() {
    assert!(!Recorder::wants_audio(false, false));
    assert!(Recorder::wants_audio(true, false));
    assert!(Recorder::wants_audio(false, true));
    assert!(Recorder::wants_audio(true, true));
}

#[test]
fn state_names() {
    assert_eq!(state_name_str(RecordingState::Idle), "Idle");
    assert_eq!(state_name_str(RecordingState::Recording), "Recording");
    assert_eq!(state_name_str(RecordingState::Paused), "Paused");
    assert_eq!(state_name_str(RecordingState::Encoding), "Encoding");
}

#[test]
fn capture_steps() {
    assert_eq!(next_capture_step(true, true), CaptureStep::Stop);
    assert_eq!(next_capture_step(true, false), CaptureStep::Stop);
    assert_eq!(next_capture_step(false, true), CaptureStep::Wait);
    assert_eq!(next_capture_step(false, false), CaptureStep::Capture);
}

#[test]
fn audio_finish_steps() {
    assert_eq!(audio_finish_step(false, 0), AudioFinish::VideoOnly);
    assert_eq!(audio_finish_step(false, 10), AudioFinish::VideoOnly);
    assert_eq!(audio_finish_step(true, 0), AudioFinish::RenameTemp);
    assert_eq!(audio_finish_step(true, 1), AudioFinish::Mux);
    assert_eq!(after_mux(true), TempVideoAction::Remove);
    assert_eq!(after_mux(false), TempVideoAction::RenameToOutput);
}
