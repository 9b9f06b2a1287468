//! The recording session state machine.
//!
//! A [`ScreenRecorder`] owns the decisions of a recording session: when a
//! recording may start, pause, resume and stop, and how the background capture
//! worker moves the session through encoding back to idle.  The worker itself
//! (capturing frames, running FFmpeg, sleeping) lives with the caller, which
//! performs the step that [`next_capture_step`] and [`audio_finish_step`]
//! choose and reports back through [`ScreenRecorder::record_failure`],
//! [`ScreenRecorder::enter_encoding`] and [`ScreenRecorder::return_to_idle`].
//!
//! The recorder is generic over the stop-signal sender `S` and the audio
//! capture handle `A`, which it hands back to the caller when the session is
//! stopped.

use vstd::prelude::*;
use vstd::string::*;

verus! {

/// Lifecycle of a recording session.
#[derive(Debug, Clone, Copy, PartialEq, Eq, Structural)]
pub enum RecordingState {
    Idle,
    Recording,
    Paused,
    Encoding,
}

/// The name under which a state is reported (its `Debug` rendering).
pub open spec fn state_name(s: RecordingState) -> Seq<char> {
    match s {
        RecordingState::Idle => "Idle"@,
        RecordingState::Recording => "Recording"@,
        RecordingState::Paused => "Paused"@,
        RecordingState::Encoding => "Encoding"@,
    }
}

/// Returns the name under which `s` is reported.
pub fn state_name_str(s: RecordingState) -> (r: &'static str)
    ensures
        r@ == state_name(s),
{
    match s {
        RecordingState::Idle => "Idle",
        RecordingState::Recording => "Recording",
        RecordingState::Paused => "Paused",
        RecordingState::Encoding => "Encoding",
    }
}

/// The abstract content of a [`ScreenRecorder`].
pub struct RecorderModel<S, A> {
    pub state: RecordingState,
    /// Whether capture (video and audio) is suspended.
    pub paused: bool,
    /// The sender that tells the capture worker to stop, while one is installed.
    pub stop_signal: Option<S>,
    /// The running audio capture, if any.
    pub audio_handle: Option<A>,
    /// The last failure of the capture worker that nobody has read yet.
    pub last_error: Option<String>,
}

/// A session is consistent when the pause flag agrees with the state while
/// the session is recording or paused.
pub open spec fn consistent<S, A>(m: RecorderModel<S, A>) -> bool {
    &&& m.state == RecordingState::Paused ==> m.paused
    &&& m.state == RecordingState::Recording ==> !m.paused
}

/// The message with which a start is refused in state `s`.
pub open spec fn start_refusal(s: RecordingState) -> Seq<char> {
    "Cannot start: recorder is in "@ + state_name(s) + " state"@
}

/// After a start request: accepted only when idle, which clears the pause flag.
pub open spec fn start_transition<S, A>(m: RecorderModel<S, A>) -> RecorderModel<S, A> {
    if m.state == RecordingState::Idle {
        RecorderModel { paused: false, ..m }
    } else {
        m
    }
}

/// After the capture worker has been set up: recording, with its stop signal
/// installed and the new audio capture (if one started) in place.
pub open spec fn begin_transition<S, A>(
    m: RecorderModel<S, A>,
    stop_signal: S,
    audio: Option<A>,
) -> RecorderModel<S, A> {
    RecorderModel {
        state: RecordingState::Recording,
        stop_signal: Some(stop_signal),
        audio_handle: if audio is Some { audio } else { m.audio_handle },
        ..m
    }
}

/// After a stop request: the stop signal and the audio capture are handed out.
pub open spec fn stop_transition<S, A>(m: RecorderModel<S, A>) -> RecorderModel<S, A> {
    RecorderModel { stop_signal: None, audio_handle: None, ..m }
}

/// After a pause request: accepted only while recording.
pub open spec fn pause_transition<S, A>(m: RecorderModel<S, A>) -> RecorderModel<S, A> {
    if m.state == RecordingState::Recording {
        RecorderModel { state: RecordingState::Paused, paused: true, ..m }
    } else {
        m
    }
}

/// After a resume request: accepted only while paused.
pub open spec fn resume_transition<S, A>(m: RecorderModel<S, A>) -> RecorderModel<S, A> {
    if m.state == RecordingState::Paused {
        RecorderModel { state: RecordingState::Recording, paused: false, ..m }
    } else {
        m
    }
}

/// After the capture worker failed with `msg`: idle, with the failure kept.
pub open spec fn failure_transition<S, A>(m: RecorderModel<S, A>, msg: String) -> RecorderModel<S, A> {
    RecorderModel { state: RecordingState::Idle, last_error: Some(msg), ..m }
}

/// After the capture worker stopped capturing and began finalizing the file.
pub open spec fn encoding_transition<S, A>(m: RecorderModel<S, A>) -> RecorderModel<S, A> {
    RecorderModel { state: RecordingState::Encoding, ..m }
}

/// After the capture worker finished (saved, or gave up encoding).
pub open spec fn idle_transition<S, A>(m: RecorderModel<S, A>) -> RecorderModel<S, A> {
    RecorderModel { state: RecordingState::Idle, ..m }
}

/// After the last error has been read.
pub open spec fn take_error_transition<S, A>(m: RecorderModel<S, A>) -> RecorderModel<S, A> {
    RecorderModel { last_error: None, ..m }
}

/// A screen recording session.
pub struct ScreenRecorder<S, A> {
    state: RecordingState,
    is_paused: bool,
    stop_signal: Option<S>,
    audio_handle: Option<A>,
    last_error: Option<String>,
}

impl<S, A> View for ScreenRecorder<S, A> {
    type V = RecorderModel<S, A>;

    closed spec fn view(&self) -> RecorderModel<S, A> {
        RecorderModel {
            state: self.state,
            paused: self.is_paused,
            stop_signal: self.stop_signal,
            audio_handle: self.audio_handle,
            last_error: self.last_error,
        }
    }
}

impl<S, A> ScreenRecorder<S, A> {
    /// An idle recorder with nothing running and no error.
    pub fn new() -> (r: Self)
        ensures
            r@ == (RecorderModel::<S, A> {
                state: RecordingState::Idle,
                paused: false,
                stop_signal: None,
                audio_handle: None,
                last_error: None,
            }),
    {
        ScreenRecorder {
            state: RecordingState::Idle,
            is_paused: false,
            stop_signal: None,
            audio_handle: None,
            last_error: None,
        }
    }

    /// The current state.
    pub fn state(&self) -> (r: RecordingState)
        ensures
            r == self@.state,
    {
        self.state
    }

    /// Whether capture is currently suspended.
    pub fn is_paused(&self) -> (r: bool)
        ensures
            r == self@.paused,
    {
        self.is_paused
    }

    /// Takes the last error, clearing it.
    pub fn take_error(&mut self) -> (r: Option<String>)
        ensures
            r == old(self)@.last_error,
            final(self)@ == take_error_transition(old(self)@),
    {
        self.last_error.take()
    }

    /// Asks to start a recording.  Refused unless idle; when accepted the pause
    /// flag is cleared, and the caller sets up audio and the capture worker and
    /// then calls [`Self::begin_recording`].
    pub fn start(&mut self) -> (r: Result<(), String>)
        ensures
            final(self)@ == start_transition(old(self)@),
            r is Ok <==> old(self)@.state == RecordingState::Idle,
            r matches Err(e) ==> e@ == start_refusal(old(self)@.state),
    {
        if self.state != RecordingState::Idle {
            let mut msg = String::from_str("Cannot start: recorder is in ");
            msg.append(state_name_str(self.state));
            msg.append(" state");
            return Err(msg);
        }
        self.is_paused = false;
        Ok(())
    }

    /// Whether a session with these options captures audio.
    pub fn wants_audio(record_mic: bool, record_system_audio: bool) -> (r: bool)
        ensures
            r == (record_mic || record_system_audio),
    {
        record_mic || record_system_audio
    }

    /// Enters the recording state once the stop channel exists and audio
    /// capture (if requested) has been tried; `audio` is the capture that
    /// started, if any.
    pub fn begin_recording(&mut self, stop_signal: S, audio: Option<A>)
        requires
            old(self)@.state == RecordingState::Idle,
            !old(self)@.paused,
        ensures
            final(self)@ == begin_transition(old(self)@, stop_signal, audio),
    {
        if audio.is_some() {
            self.audio_handle = audio;
        }
        self.stop_signal = Some(stop_signal);
        self.state = RecordingState::Recording;
    }

    /// Asks to stop.  Hands out the audio capture to be stopped (if any) and
    /// the stop signal to be sent; without a stop signal there is no active
    /// recording to stop.
    pub fn stop(&mut self) -> (r: (Option<A>, Result<S, String>))
        ensures
            final(self)@ == stop_transition(old(self)@),
            final(self)@.state == old(self)@.state,
            final(self)@.paused == old(self)@.paused,
            final(self)@.last_error == old(self)@.last_error,
            final(self)@.stop_signal is None,
            final(self)@.audio_handle is None,
            r.0 == old(self)@.audio_handle,
            match old(self)@.stop_signal {
                Some(s) => r.1 == Ok::<S, String>(s),
                None => r.1 matches Err(e) && e@ == "No active recording to stop"@,
            },
    {
        let audio = self.audio_handle.take();
        match self.stop_signal.take() {
            Some(s) => (audio, Ok(s)),
            None => (audio, Err(String::from_str("No active recording to stop"))),
        }
    }

    /// Asks to pause.  Only a recording session can be paused.
    pub fn pause(&mut self) -> (r: Result<(), String>)
        ensures
            final(self)@ == pause_transition(old(self)@),
            r is Ok <==> old(self)@.state == RecordingState::Recording,
            r matches Err(e) ==> e@ == "Not recording"@,
    {
        if self.state != RecordingState::Recording {
            return Err(String::from_str("Not recording"));
        }
        self.is_paused = true;
        self.state = RecordingState::Paused;
        Ok(())
    }

    /// Asks to resume.  Only a paused session can be resumed.
    pub fn resume(&mut self) -> (r: Result<(), String>)
        ensures
            final(self)@ == resume_transition(old(self)@),
            r is Ok <==> old(self)@.state == RecordingState::Paused,
            r matches Err(e) ==> e@ == "Not paused"@,
    {
        if self.state != RecordingState::Paused {
            return Err(String::from_str("Not paused"));
        }
        self.is_paused = false;
        self.state = RecordingState::Recording;
        Ok(())
    }

    /// The capture worker failed: keep the message and go back to idle.
    pub fn record_failure(&mut self, msg: String)
        ensures
            final(self)@ == failure_transition(old(self)@, msg),
    {
        self.last_error = Some(msg);
        self.state = RecordingState::Idle;
    }

    /// The capture worker stopped capturing and is finalizing the file.
    pub fn enter_encoding(&mut self)
        ensures
            final(self)@ == encoding_transition(old(self)@),
    {
        self.state = RecordingState::Encoding;
    }

    /// The capture worker is done (the file was saved, or encoding failed).
    pub fn return_to_idle(&mut self)
        ensures
            final(self)@ == idle_transition(old(self)@),
    {
        self.state = RecordingState::Idle;
    }
}

/// What the capture worker does next in its loop.
#[derive(Debug, Clone, Copy, PartialEq, Eq, Structural)]
pub enum CaptureStep {
    /// Leave the loop and finalize the recording.
    Stop,
    /// Sleep briefly and look again.
    Wait,
    /// Grab the next frame and hand it to the encoder.
    Capture,
}

/// Chooses the capture worker's next step: a stop request wins over a pause.
pub fn next_capture_step(stop_requested: bool, paused: bool) -> (r: CaptureStep)
    ensures
        r == (if stop_requested {
            CaptureStep::Stop
        } else if paused {
            CaptureStep::Wait
        } else {
            CaptureStep::Capture
        }),
{
    if stop_requested {
        CaptureStep::Stop
    } else if paused {
        CaptureStep::Wait
    } else {
        CaptureStep::Capture
    }
}

/// How the worker turns the encoded video into the final recording.
#[derive(Debug, Clone, Copy, PartialEq, Eq, Structural)]
pub enum AudioFinish {
    /// No audio was captured: the video was written to the output path itself.
    VideoOnly,
    /// Mux the temporary video with the captured audio into the output path.
    Mux,
    /// Audio capture ran but collected nothing: move the temporary video to
    /// the output path.
    RenameTemp,
}

/// Chooses how to finish, from whether an audio buffer exists and how many
/// samples it holds.
pub fn audio_finish_step(has_audio_buffer: bool, sample_count: usize) -> (r: AudioFinish)
    ensures
        r == (if !has_audio_buffer {
            AudioFinish::VideoOnly
        } else if sample_count > 0 {
            AudioFinish::Mux
        } else {
            AudioFinish::RenameTemp
        }),
{
    if !has_audio_buffer {
        AudioFinish::VideoOnly
    } else if sample_count > 0 {
        AudioFinish::Mux
    } else {
        AudioFinish::RenameTemp
    }
}

/// What becomes of the temporary video after a mux attempt.
#[derive(Debug, Clone, Copy, PartialEq, Eq, Structural)]
pub enum TempVideoAction {
    /// The muxed file is the recording: delete the temporary video.
    Remove,
    /// Muxing failed: keep the video without audio as the recording.
    RenameToOutput,
}

/// Chooses what to do with the temporary video after muxing.
pub fn after_mux(mux_ok: bool) -> (r: TempVideoAction)
    ensures
        r == (if mux_ok { TempVideoAction::Remove } else { TempVideoAction::RenameToOutput }),
{
    if mux_ok {
        TempVideoAction::Remove
    } else {
        TempVideoAction::RenameToOutput
    }
}

/// Every operation keeps a session consistent: paused exactly when the state
/// says so, whenever the session is recording or paused.
pub proof fn lemma_operations_keep_consistency<S, A>(
    m: RecorderModel<S, A>,
    stop_signal: S,
    audio: Option<A>,
    msg: String,
)
    requires
        consistent(m),
    ensures
        consistent(start_transition(m)),
        m.state == RecordingState::Idle ==> consistent(
            begin_transition(start_transition(m), stop_signal, audio),
        ),
        consistent(stop_transition(m)),
        consistent(pause_transition(m)),
        consistent(resume_transition(m)),
        consistent(failure_transition(m, msg)),
        consistent(encoding_transition(m)),
        consistent(idle_transition(m)),
        consistent(take_error_transition(m)),
{
}

/// Resuming undoes pausing, and pausing undoes resuming.
pub proof fn lemma_pause_resume_undo<S, A>(m: RecorderModel<S, A>)
    requires
        consistent(m),
    ensures
        m.state == RecordingState::Recording ==> resume_transition(pause_transition(m)) == m,
        m.state == RecordingState::Paused ==> pause_transition(resume_transition(m)) == m,
{
}

/// Once stopped, a session has nothing left to stop: a second stop request is
/// refused and hands out no audio capture.
pub proof fn lemma_stop_once<S, A>(m: RecorderModel<S, A>)
    ensures
        stop_transition(m).stop_signal is None,
        stop_transition(m).audio_handle is None,
        stop_transition(stop_transition(m)) == stop_transition(m),
{
}

/// An error is read at most once; a worker failure is read back as its
/// message, and leaves the recorder ready to start again.
pub proof fn lemma_error_read_once<S, A>(m: RecorderModel<S, A>, msg: String)
    ensures
        take_error_transition(m).last_error is None,
        failure_transition(m, msg).last_error == Some(msg),
        failure_transition(m, msg).state == RecordingState::Idle,
        start_transition(failure_transition(m, msg)).paused == false,
{
}

/// A full session (start, pause, resume, stop, encode, finish) from an idle
/// recorder ends idle, unpaused, with nothing left to stop.
pub proof fn lemma_session_round_trip<S, A>(m: RecorderModel<S, A>, stop_signal: S, audio: Option<A>)
    requires
        m.state == RecordingState::Idle,
    ensures
        ({
            let started = begin_transition(start_transition(m), stop_signal, audio);
            let done = idle_transition(
                encoding_transition(
                    stop_transition(resume_transition(pause_transition(started))),
                ),
            );
            &&& started.state == RecordingState::Recording
            &&& started.stop_signal == Some(stop_signal)
            &&& done.state == RecordingState::Idle
            &&& !done.paused
            &&& done.stop_signal is None
            &&& done.audio_handle is None
            &&& done.last_error == m.last_error
        }),
{
}

/// A stop request only hands out the stop signal and the audio capture: the
/// session keeps its state (the capture worker moves it on), its pause flag
/// and its error, so a new start is refused until the worker has finished.
pub proof fn lemma_stop_keeps_session<S, A>(m: RecorderModel<S, A>)
    ensures
        stop_transition(m).state == m.state,
        stop_transition(m).paused == m.paused,
        stop_transition(m).last_error == m.last_error,
        stop_transition(m).stop_signal is None,
        stop_transition(m).audio_handle is None,
        m.state != RecordingState::Idle ==> start_transition(stop_transition(m)) == stop_transition(m),
{
}

/// Each request changes only what it is about: starting touches only the
/// pause flag; pausing and resuming only the state and the pause flag; the
/// worker's moves only the state (and a failure its error); reading the
/// error only the error.  The stop signal, the audio capture and the error
/// pass through every other request unchanged.
pub proof fn lemma_requests_change_only_their_fields<S, A>(m: RecorderModel<S, A>, msg: String)
    ensures
        ({
            let s = start_transition(m);
            &&& s.state == m.state && s.stop_signal == m.stop_signal
            &&& s.audio_handle == m.audio_handle && s.last_error == m.last_error
            &&& (m.state == RecordingState::Idle ==> !s.paused)
            &&& (m.state != RecordingState::Idle ==> s.paused == m.paused)
        }),
        ({
            let p = pause_transition(m);
            &&& p.stop_signal == m.stop_signal && p.audio_handle == m.audio_handle
            &&& p.last_error == m.last_error
            &&& (m.state == RecordingState::Recording ==> p.state == RecordingState::Paused && p.paused)
            &&& (m.state != RecordingState::Recording ==> p.state == m.state && p.paused == m.paused)
        }),
        ({
            let q = resume_transition(m);
            &&& q.stop_signal == m.stop_signal && q.audio_handle == m.audio_handle
            &&& q.last_error == m.last_error
            &&& (m.state == RecordingState::Paused ==> q.state == RecordingState::Recording && !q.paused)
            &&& (m.state != RecordingState::Paused ==> q.state == m.state && q.paused == m.paused)
        }),
        ({
            let f = failure_transition(m, msg);
            &&& f.state == RecordingState::Idle && f.last_error == Some(msg)
            &&& f.paused == m.paused && f.stop_signal == m.stop_signal && f.audio_handle == m.audio_handle
        }),
        ({
            let e = encoding_transition(m);
            &&& e.state == RecordingState::Encoding
            &&& e.paused == m.paused && e.stop_signal == m.stop_signal
            &&& e.audio_handle == m.audio_handle && e.last_error == m.last_error
        }),
        ({
            let i = idle_transition(m);
            &&& i.state == RecordingState::Idle
            &&& i.paused == m.paused && i.stop_signal == m.stop_signal
            &&& i.audio_handle == m.audio_handle && i.last_error == m.last_error
        }),
        ({
            let t = take_error_transition(m);
            &&& t.last_error is None && t.state == m.state && t.paused == m.paused
            &&& t.stop_signal == m.stop_signal && t.audio_handle == m.audio_handle
        }),
{
}

/// Beginning a recording installs its stop signal, keeps the audio capture
/// that started (or the one already held when none did), leaves the error
/// alone, and records unpaused.
pub proof fn lemma_begin_recording<S, A>(m: RecorderModel<S, A>, stop_signal: S, audio: Option<A>)
    requires
        m.state == RecordingState::Idle,
        !m.paused,
    ensures
        ({
            let b = begin_transition(m, stop_signal, audio);
            &&& b.state == RecordingState::Recording
            &&& !b.paused
            &&& b.stop_signal == Some(stop_signal)
            &&& (audio is Some ==> b.audio_handle == audio)
            &&& (audio is None ==> b.audio_handle == m.audio_handle)
            &&& b.last_error == m.last_error
        }),
{
}

} // verus!
