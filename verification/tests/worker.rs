use tapeit::encoder::FrameFormat;
use tapeit::recorder::{RecordingState, ScreenRecorder};
use tapeit::worker::{worker_step, WorkerAction, WorkerEvent, WorkerPhase};

type Recorder = ScreenRecorder<u8, u8>;

fn recording() -> Recorder {
    let mut r = Recorder::new();
    r.start().unwrap();
    r.begin_recording(1, None);
    r
}

#[test]
fn successful_run_passes_every_phase() {
    let mut r = recording();
    let (p, a) = worker_step(WorkerPhase::Building, WorkerEvent::CapturerBuilt);
    assert_eq!(p, WorkerPhase::FirstFrame);
    assert!(matches!(a, WorkerAction::StartCapture));
    let (p, a) = worker_step(p, WorkerEvent::FirstFrameArrived(FrameFormat::Bgra { width: 1920, height: 1080 }));
    assert_eq!(p, WorkerPhase::OpeningEncoder);
    assert!(matches!(a, WorkerAction::StartEncoder { width: 1920, height: 1080 }));
    let (p, a) = worker_step(p, WorkerEvent::EncoderStarted);
    assert_eq!(p, WorkerPhase::Capturing);
    assert!(matches!(a, WorkerAction::StreamFrames));
    let (p, a) = worker_step(p, WorkerEvent::CaptureEnded);
    assert_eq!(p, WorkerPhase::Encoding);
    assert!(matches!(a, WorkerAction::FinishEncoding));
    r.apply_worker_action(&a);
    assert_eq!(r.state(), RecordingState::Encoding);
    let (p, a) = worker_step(p, WorkerEvent::EncodeSucceeded);
    assert_eq!(p, WorkerPhase::Saving);
    assert!(matches!(a, WorkerAction::FinishAudio));
    r.apply_worker_action(&a);
    assert_eq!(r.state(), RecordingState::Encoding);
    let (p, a) = worker_step(p, WorkerEvent::Saved);
    assert_eq!(p, WorkerPhase::Done);
    assert!(matches!(a, WorkerAction::AnnounceSaved));
    r.apply_worker_action(&a);
    assert_eq!(r.state(), RecordingState::Idle);
    assert_eq!(r.take_error(), None);
}

fn fail_message(a: WorkerAction) -> (String, bool) {
    match a {
        WorkerAction::Fail { message, stop_capture } => (message, stop_capture),
        _ => panic!("expected a failure"),
    }
}

#[test]
fn failures_record_errors_and_return_to_idle() {
    let (p, a) = worker_step(WorkerPhase::Building, WorkerEvent::CapturerFailed("NoPermission".to_string()));
    assert_eq!(p, WorkerPhase::Done);
    let mut r = recording();
    r.apply_worker_action(&a);
    assert_eq!(r.state(), RecordingState::Idle);
    assert_eq!(r.take_error(), Some("Failed to build capturer: NoPermission".to_string()));
    assert_eq!(fail_message(a), ("Failed to build capturer: NoPermission".to_string(), false));

    let (_, a) = worker_step(WorkerPhase::FirstFrame, WorkerEvent::FirstFrameFailed("RecvError".to_string()));
    assert_eq!(fail_message(a), ("Failed to capture first frame: RecvError".to_string(), true));
    let (_, a) = worker_step(WorkerPhase::FirstFrame, WorkerEvent::FirstFrameArrived(FrameFormat::Other));
    assert_eq!(fail_message(a), ("Unexpected frame format".to_string(), true));
    let (_, a) = worker_step(WorkerPhase::OpeningEncoder, WorkerEvent::EncoderFailed("no ffmpeg".to_string()));
    assert_eq!(fail_message(a), ("Failed to start encoder: no ffmpeg".to_string(), true));
}

#[test]
fn encoding_failure_gives_up_without_error() {
    let mut r = recording();
    let (p, a) = worker_step(WorkerPhase::Encoding, WorkerEvent::EncodeFailed);
    assert_eq!(p, WorkerPhase::Done);
    assert!(matches!(a, WorkerAction::GiveUp));
    r.apply_worker_action(&a);
    assert_eq!(r.state(), RecordingState::Idle);
    assert_eq!(r.take_error(), None);
}

#[test]
fn out_of_place_events_are_ignored() {
    let (p, a) = worker_step(WorkerPhase::Capturing, WorkerEvent::CapturerBuilt);
    assert_eq!(p, WorkerPhase::Capturing);
    assert!(matches!(a, WorkerAction::Ignore));
    let (p, a) = worker_step(WorkerPhase::Done, WorkerEvent::Saved);
    assert_eq!(p, WorkerPhase::Done);
    assert!(matches!(a, WorkerAction::Ignore));
    let mut r = recording();
    r.apply_worker_action(&a);
    assert_eq!(r.state(), RecordingState::Recording);
}
