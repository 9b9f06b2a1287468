//! The capture worker's sequence of steps.
//!
//! A recording's background worker builds the capturer, captures a first
//! frame to learn the frame size, starts the encoder, captures until asked to
//! stop, finalizes the video and finishes the audio.  [`worker_step`] decides,
//! from the current phase and what just happened, the next phase and what the
//! worker does next; [`crate::recorder::ScreenRecorder::apply_worker_action`]
//! applies the action's effect on the session.

use vstd::prelude::*;
use vstd::string::*;
use crate::encoder::{as_unsigned, FrameFormat, VideoEncoder};
use crate::recorder::{
    encoding_transition, failure_transition, idle_transition, RecorderModel, RecordingState,
    ScreenRecorder,
};

verus! {

/// Where the capture worker is.
#[derive(Debug, Clone, Copy, PartialEq, Eq, Structural)]
pub enum WorkerPhase {
    /// Building the capturer.
    Building,
    /// Capture started; waiting for the first frame.
    FirstFrame,
    /// Starting the encoder for the first frame's size.
    OpeningEncoder,
    /// Streaming frames to the encoder.
    Capturing,
    /// Capture stopped; the encoder is finalizing the video.
    Encoding,
    /// The video is written; audio is being muxed in or the file moved.
    Saving,
    /// The worker has finished.
    Done,
}

/// What happened to the worker.
pub enum WorkerEvent {
    CapturerBuilt,
    /// Building the capturer failed; the text describes the error.
    CapturerFailed(String),
    FirstFrameArrived(FrameFormat),
    /// The first frame could not be captured; the text describes the error.
    FirstFrameFailed(String),
    EncoderStarted,
    /// The encoder could not start; the text is its error message.
    EncoderFailed(String),
    /// The capture loop ended and capture is stopped.
    CaptureEnded,
    EncodeSucceeded,
    EncodeFailed,
    /// The recording file is in place.
    Saved,
}

/// What the worker does next.
pub enum WorkerAction {
    /// Start capturing and wait for the first frame.
    StartCapture,
    /// Record `message` as the session's error and stop, stopping capture
    /// first when it was started.
    Fail { message: String, stop_capture: bool },
    /// Start the encoder for frames of this size.
    StartEncoder { width: u32, height: u32 },
    /// Write the first frame, then stream frames until the loop ends.
    StreamFrames,
    /// Enter encoding and finalize the video.
    FinishEncoding,
    /// Give up without recording an error: encoding failed.
    GiveUp,
    /// Mux the audio in, or move the video into place.
    FinishAudio,
    /// Announce the saved file, then return the session to idle.
    AnnounceSaved,
    /// The event does not belong to this phase: nothing to do.
    Ignore,
}

/// The kind of an action, without its data.
#[derive(Debug, Clone, Copy, PartialEq, Eq, Structural)]
pub enum ActionKind {
    StartCapture,
    Fail,
    StartEncoder,
    StreamFrames,
    FinishEncoding,
    GiveUp,
    FinishAudio,
    AnnounceSaved,
    Ignore,
}

/// The kind of action `a`.
pub open spec fn kind_of(a: WorkerAction) -> ActionKind {
    match a {
        WorkerAction::StartCapture => ActionKind::StartCapture,
        WorkerAction::Fail { .. } => ActionKind::Fail,
        WorkerAction::StartEncoder { .. } => ActionKind::StartEncoder,
        WorkerAction::StreamFrames => ActionKind::StreamFrames,
        WorkerAction::FinishEncoding => ActionKind::FinishEncoding,
        WorkerAction::GiveUp => ActionKind::GiveUp,
        WorkerAction::FinishAudio => ActionKind::FinishAudio,
        WorkerAction::AnnounceSaved => ActionKind::AnnounceSaved,
        WorkerAction::Ignore => ActionKind::Ignore,
    }
}

/// The next phase and the kind of action for `event` in `phase`.
pub open spec fn step_spec(phase: WorkerPhase, event: WorkerEvent) -> (WorkerPhase, ActionKind) {
    match (phase, event) {
        (WorkerPhase::Building, WorkerEvent::CapturerBuilt) => (WorkerPhase::FirstFrame, ActionKind::StartCapture),
        (WorkerPhase::Building, WorkerEvent::CapturerFailed(_)) => (WorkerPhase::Done, ActionKind::Fail),
        (WorkerPhase::FirstFrame, WorkerEvent::FirstFrameArrived(f)) => match f {
            FrameFormat::Bgra { .. } => (WorkerPhase::OpeningEncoder, ActionKind::StartEncoder),
            FrameFormat::Other => (WorkerPhase::Done, ActionKind::Fail),
        },
        (WorkerPhase::FirstFrame, WorkerEvent::FirstFrameFailed(_)) => (WorkerPhase::Done, ActionKind::Fail),
        (WorkerPhase::OpeningEncoder, WorkerEvent::EncoderStarted) => (WorkerPhase::Capturing, ActionKind::StreamFrames),
        (WorkerPhase::OpeningEncoder, WorkerEvent::EncoderFailed(_)) => (WorkerPhase::Done, ActionKind::Fail),
        (WorkerPhase::Capturing, WorkerEvent::CaptureEnded) => (WorkerPhase::Encoding, ActionKind::FinishEncoding),
        (WorkerPhase::Encoding, WorkerEvent::EncodeSucceeded) => (WorkerPhase::Saving, ActionKind::FinishAudio),
        (WorkerPhase::Encoding, WorkerEvent::EncodeFailed) => (WorkerPhase::Done, ActionKind::GiveUp),
        (WorkerPhase::Saving, WorkerEvent::Saved) => (WorkerPhase::Done, ActionKind::AnnounceSaved),
        _ => (phase, ActionKind::Ignore),
    }
}

/// The error recorded when `event` fails the worker.
pub open spec fn failure_message(event: WorkerEvent) -> Seq<char> {
    match event {
        WorkerEvent::CapturerFailed(e) => "Failed to build capturer: "@ + e@,
        WorkerEvent::FirstFrameFailed(e) => "Failed to capture first frame: "@ + e@,
        WorkerEvent::FirstFrameArrived(_) => "Unexpected frame format"@,
        WorkerEvent::EncoderFailed(e) => "Failed to start encoder: "@ + e@,
        _ => Seq::empty(),
    }
}

/// Position of a phase along the worker's run.
pub open spec fn phase_rank(p: WorkerPhase) -> int {
    match p {
        WorkerPhase::Building => 0,
        WorkerPhase::FirstFrame => 1,
        WorkerPhase::OpeningEncoder => 2,
        WorkerPhase::Capturing => 3,
        WorkerPhase::Encoding => 4,
        WorkerPhase::Saving => 5,
        WorkerPhase::Done => 6,
    }
}

/// The effect of a worker action on the session.
pub open spec fn worker_effect<S, A>(m: RecorderModel<S, A>, a: WorkerAction) -> RecorderModel<S, A> {
    match a {
        WorkerAction::Fail { message, .. } => failure_transition(m, message),
        WorkerAction::FinishEncoding => encoding_transition(m),
        WorkerAction::GiveUp => idle_transition(m),
        WorkerAction::AnnounceSaved => idle_transition(m),
        _ => m,
    }
}

fn prefixed(prefix: &str, text: String) -> (r: String)
    ensures
        r@ == prefix@ + text@,
{
    let mut r = String::from_str(prefix);
    r.append(text.as_str());
    r
}

/// Decides the worker's next phase and action.
pub fn worker_step(phase: WorkerPhase, event: WorkerEvent) -> (r: (WorkerPhase, WorkerAction))
    ensures
        r.0 == step_spec(phase, event).0,
        kind_of(r.1) == step_spec(phase, event).1,
        r.1 matches WorkerAction::Fail { message, stop_capture } ==> {
            &&& message@ == failure_message(event)
            &&& stop_capture == (phase != WorkerPhase::Building)
        },
        r.1 matches WorkerAction::StartEncoder { width, height } ==> (event matches WorkerEvent::FirstFrameArrived(
            FrameFormat::Bgra { width: w, height: h },
        ) && width == as_unsigned(w) && height == as_unsigned(h)),
{
    match (phase, event) {
        (WorkerPhase::Building, WorkerEvent::CapturerBuilt) => (WorkerPhase::FirstFrame, WorkerAction::StartCapture),
        (WorkerPhase::Building, WorkerEvent::CapturerFailed(e)) => (
            WorkerPhase::Done,
            WorkerAction::Fail { message: prefixed("Failed to build capturer: ", e), stop_capture: false },
        ),
        (WorkerPhase::FirstFrame, WorkerEvent::FirstFrameArrived(f)) => {
            match VideoEncoder::first_frame_dimensions(&f) {
                Ok((width, height)) => (WorkerPhase::OpeningEncoder, WorkerAction::StartEncoder { width, height }),
                Err(message) => (WorkerPhase::Done, WorkerAction::Fail { message, stop_capture: true }),
            }
        },
        (WorkerPhase::FirstFrame, WorkerEvent::FirstFrameFailed(e)) => (
            WorkerPhase::Done,
            WorkerAction::Fail { message: prefixed("Failed to capture first frame: ", e), stop_capture: true },
        ),
        (WorkerPhase::OpeningEncoder, WorkerEvent::EncoderStarted) => (WorkerPhase::Capturing, WorkerAction::StreamFrames),
        (WorkerPhase::OpeningEncoder, WorkerEvent::EncoderFailed(e)) => (
            WorkerPhase::Done,
            WorkerAction::Fail { message: prefixed("Failed to start encoder: ", e), stop_capture: true },
        ),
        (WorkerPhase::Capturing, WorkerEvent::CaptureEnded) => (WorkerPhase::Encoding, WorkerAction::FinishEncoding),
        (WorkerPhase::Encoding, WorkerEvent::EncodeSucceeded) => (WorkerPhase::Saving, WorkerAction::FinishAudio),
        (WorkerPhase::Encoding, WorkerEvent::EncodeFailed) => (WorkerPhase::Done, WorkerAction::GiveUp),
        (WorkerPhase::Saving, WorkerEvent::Saved) => (WorkerPhase::Done, WorkerAction::AnnounceSaved),
        _ => (phase, WorkerAction::Ignore),
    }
}

impl<S, A> ScreenRecorder<S, A> {
    /// Applies a worker action's effect on the session: a failure is recorded
    /// and returns to idle, finishing the encoding enters encoding, and giving
    /// up or announcing the saved file returns to idle.
    pub fn apply_worker_action(&mut self, action: &WorkerAction)
        ensures
            final(self)@ == worker_effect(old(self)@, *action),
    {
        match action {
            WorkerAction::Fail { message, .. } => self.record_failure(message.clone()),
            WorkerAction::FinishEncoding => self.enter_encoding(),
            WorkerAction::GiveUp => self.return_to_idle(),
            WorkerAction::AnnounceSaved => self.return_to_idle(),
            _ => {},
        }
    }
}

/// The worker only moves forward: each step keeps the phase (an event that
/// does not belong to it is ignored) or advances it.
pub proof fn lemma_worker_moves_forward(phase: WorkerPhase, event: WorkerEvent)
    ensures
        step_spec(phase, event).1 == ActionKind::Ignore <==> step_spec(phase, event).0 == phase,
        step_spec(phase, event).0 != phase ==> phase_rank(step_spec(phase, event).0) > phase_rank(phase),
        phase == WorkerPhase::Done ==> step_spec(phase, event) == (WorkerPhase::Done, ActionKind::Ignore),
{
}

/// Errors are recorded only for failures before frames stream: once capture
/// runs, a failed encoding gives up without recording one.
pub proof fn lemma_errors_only_before_streaming(phase: WorkerPhase, event: WorkerEvent)
    ensures
        step_spec(phase, event).1 == ActionKind::Fail ==> phase_rank(phase) <= 2,
        phase == WorkerPhase::Encoding && event is EncodeFailed ==> step_spec(phase, event).1 == ActionKind::GiveUp,
{
}

/// When the worker finishes, the session is idle: every action that ends the
/// worker returns the session to idle, and only a failure records an error.
pub proof fn lemma_worker_ends_idle<S, A>(m: RecorderModel<S, A>, phase: WorkerPhase, event: WorkerEvent, action: WorkerAction)
    requires
        phase != WorkerPhase::Done,
        step_spec(phase, event).0 == WorkerPhase::Done,
        kind_of(action) == step_spec(phase, event).1,
    ensures
        worker_effect(m, action).state == RecordingState::Idle,
        worker_effect(m, action).last_error != m.last_error ==> kind_of(action) == ActionKind::Fail,
        kind_of(action) != ActionKind::Fail ==> worker_effect(m, action).last_error == m.last_error,
{
}

/// A successful run passes through every phase in order, and the session
/// goes from recording through encoding back to idle with its error untouched.
pub proof fn lemma_successful_run<S, A>(m: RecorderModel<S, A>, width: i32, height: i32)
    ensures
        ({
            let p1 = step_spec(WorkerPhase::Building, WorkerEvent::CapturerBuilt);
            let p2 = step_spec(p1.0, WorkerEvent::FirstFrameArrived(FrameFormat::Bgra { width, height }));
            let p3 = step_spec(p2.0, WorkerEvent::EncoderStarted);
            let p4 = step_spec(p3.0, WorkerEvent::CaptureEnded);
            let p5 = step_spec(p4.0, WorkerEvent::EncodeSucceeded);
            let p6 = step_spec(p5.0, WorkerEvent::Saved);
            &&& p1 == (WorkerPhase::FirstFrame, ActionKind::StartCapture)
            &&& p2 == (WorkerPhase::OpeningEncoder, ActionKind::StartEncoder)
            &&& p3 == (WorkerPhase::Capturing, ActionKind::StreamFrames)
            &&& p4 == (WorkerPhase::Encoding, ActionKind::FinishEncoding)
            &&& p5 == (WorkerPhase::Saving, ActionKind::FinishAudio)
            &&& p6 == (WorkerPhase::Done, ActionKind::AnnounceSaved)
            &&& worker_effect(m, WorkerAction::FinishEncoding).state == RecordingState::Encoding
            &&& worker_effect(worker_effect(m, WorkerAction::FinishEncoding), WorkerAction::AnnounceSaved)
                == (RecorderModel { state: RecordingState::Idle, ..m })
        }),
{
}

/// Starting capture, starting the encoder, streaming frames, finishing the
/// audio and ignoring an event leave the session as it is: while frames
/// stream the session stays recording (and can be paused); only finishing the
/// encoding enters encoding, and only a failure, giving up or announcing the
/// saved file returns it to idle.
pub proof fn lemma_quiet_actions_keep_session<S, A>(m: RecorderModel<S, A>, a: WorkerAction)
    ensures
        kind_of(a) == ActionKind::StartCapture || kind_of(a) == ActionKind::StartEncoder
            || kind_of(a) == ActionKind::StreamFrames || kind_of(a) == ActionKind::FinishAudio
            || kind_of(a) == ActionKind::Ignore ==> worker_effect(m, a) == m,
        kind_of(a) == ActionKind::FinishEncoding ==> worker_effect(m, a) == (RecorderModel {
            state: RecordingState::Encoding,
            ..m
        }),
        worker_effect(m, a).state != m.state ==> (kind_of(a) == ActionKind::Fail
            || kind_of(a) == ActionKind::FinishEncoding || kind_of(a) == ActionKind::GiveUp
            || kind_of(a) == ActionKind::AnnounceSaved),
        worker_effect(m, a).stop_signal == m.stop_signal,
        worker_effect(m, a).audio_handle == m.audio_handle,
        worker_effect(m, a).paused == m.paused,
{
}

/// A failure's message carries the error text it came with, at its end,
/// after a non-empty description of the step that failed.
pub proof fn lemma_failure_message_carries_error(e: String)
    ensures
        ({
            let m1 = failure_message(WorkerEvent::CapturerFailed(e));
            let m2 = failure_message(WorkerEvent::FirstFrameFailed(e));
            let m3 = failure_message(WorkerEvent::EncoderFailed(e));
            &&& m1.len() > e@.len() && m1.subrange(m1.len() - e@.len(), m1.len() as int) == e@
            &&& m2.len() > e@.len() && m2.subrange(m2.len() - e@.len(), m2.len() as int) == e@
            &&& m3.len() > e@.len() && m3.subrange(m3.len() - e@.len(), m3.len() as int) == e@
        }),
{
    reveal_strlit("Failed to build capturer: ");
    reveal_strlit("Failed to capture first frame: ");
    reveal_strlit("Failed to start encoder: ");
    let m1 = failure_message(WorkerEvent::CapturerFailed(e));
    let m2 = failure_message(WorkerEvent::FirstFrameFailed(e));
    let m3 = failure_message(WorkerEvent::EncoderFailed(e));
    assert(m1.subrange(m1.len() - e@.len(), m1.len() as int) =~= e@);
    assert(m2.subrange(m2.len() - e@.len(), m2.len() as int) =~= e@);
    assert(m3.subrange(m3.len() - e@.len(), m3.len() as int) =~= e@);
}

} // verus!
