//! The daemon's session state machine.
//!
//! Every StartRecording and Cancel bumps a generation number. Background
//! work (the batch pipeline, the streaming consumer, the level loop) holds
//! the generation it was started under and may only change state while that
//! generation is still current, so a cancelled transcription can never
//! deliver text or overwrite the state of the next recording.
//!
//! The capture resources of a session (the microphone's stop handle, the
//! audio buffer and the streaming task) are held here as opaque handles;
//! whenever a session ends they are released and handed back to the caller,
//! who signals, drops or aborts them as told.

use vstd::prelude::*;

use crate::text::to_string;

verus! {

/// What the daemon is doing.
#[derive(Debug)]
pub enum DaemonState {
    Idle,
    Recording,
    Transcribing,
    PostProcessing,
    Streaming,
    Done,
    Error(String),
}

/// The name a state is announced under.
pub open spec fn state_name(s: DaemonState) -> Seq<char> {
    match s {
        DaemonState::Idle => "Idle"@,
        DaemonState::Recording => "Recording"@,
        DaemonState::Transcribing => "Transcribing"@,
        DaemonState::PostProcessing => "PostProcessing"@,
        DaemonState::Streaming => "Streaming"@,
        DaemonState::Done => "Done"@,
        DaemonState::Error(_) => "Error"@,
    }
}

/// A session is in flight: recording, or working on what was recorded.
pub open spec fn busy(s: DaemonState) -> bool {
    s is Recording || s is Transcribing || s is PostProcessing || s is Streaming
}

/// States that end a session.
pub open spec fn terminal(s: DaemonState) -> bool {
    s is Idle || s is Done || s is Error
}

impl DaemonState {
    /// The name announced over DBus for this state.
    pub fn as_str(&self) -> (r: &str)
        ensures
            r@ == state_name(*self),
    {
        match self {
            DaemonState::Idle => "Idle",
            DaemonState::Recording => "Recording",
            DaemonState::Transcribing => "Transcribing",
            DaemonState::PostProcessing => "PostProcessing",
            DaemonState::Streaming => "Streaming",
            DaemonState::Done => "Done",
            DaemonState::Error(_) => "Error",
        }
    }

    /// Whether a session is in flight.
    pub fn is_busy(&self) -> (r: bool)
        ensures
            r == busy(*self),
    {
        match self {
            DaemonState::Recording | DaemonState::Transcribing | DaemonState::PostProcessing
            | DaemonState::Streaming => true,
            _ => false,
        }
    }

    /// Whether this state ends a session; entering one releases whatever
    /// capture resources the session still holds.
    pub fn is_terminal(&self) -> (r: bool)
        ensures
            r == terminal(*self),
    {
        match self {
            DaemonState::Idle | DaemonState::Done | DaemonState::Error(_) => true,
            _ => false,
        }
    }

    /// Whether this is the Recording state.
    pub fn is_recording(&self) -> (r: bool)
        ensures
            r == (*self is Recording),
    {
        match self {
            DaemonState::Recording => true,
            _ => false,
        }
    }
}

/// Every state is either busy or terminal, never both.
pub proof fn law_busy_or_terminal(s: DaemonState)
    ensures
        busy(s) != terminal(s),
{
}

/// Why a session ended without text.
#[derive(Debug, Clone, Copy, PartialEq, Eq, Structural)]
pub enum DiscardReason {
    /// The user cancelled it.
    Cancelled,
    /// Nothing was said, or nothing worth delivering was heard.
    NoSpeech,
}

/// The reason as announced over DBus.
pub open spec fn discard_reason_name(r: DiscardReason) -> Seq<char> {
    match r {
        DiscardReason::Cancelled => "cancelled"@,
        DiscardReason::NoSpeech => "no-speech"@,
    }
}

/// A signal the daemon announces over DBus.
#[derive(Debug)]
pub enum BusSignal {
    /// `StateChanged(state)`.
    StateChanged(String),
    /// `SessionDiscarded(reason)`.
    SessionDiscarded(String),
}

/// The signals that end a session without text, in the order they are
/// sent: the reason, then the return to Idle it explains.
pub fn discard_signals(reason: DiscardReason) -> (r: Vec<BusSignal>)
    ensures
        r@.len() == 2,
        r@[0] matches BusSignal::SessionDiscarded(why) && why@ == discard_reason_name(reason),
        r@[1] matches BusSignal::StateChanged(state) && state@ == state_name(DaemonState::Idle),
{
    let why = match reason {
        DiscardReason::Cancelled => to_string("cancelled"),
        DiscardReason::NoSpeech => to_string("no-speech"),
    };
    let mut r: Vec<BusSignal> = Vec::new();
    r.push(BusSignal::SessionDiscarded(why));
    r.push(BusSignal::StateChanged(to_string("Idle")));
    r
}

/// Resources released when a capture is torn down: the microphone's stop
/// handle (signal it), the streaming task (abort it when `abort` is set,
/// else let it finish flushing) and the recorded audio.
pub struct Released<S, B, T> {
    pub stop: Option<S>,
    pub task: Option<T>,
    pub abort: bool,
    pub buffer: Option<B>,
}

/// The daemon state plus the session it belongs to, and the capture
/// resources that session holds.
pub struct DaemonCore<S, B, T> {
    pub state: DaemonState,
    pub generation: u64,
    /// Whether the current session uses the streaming path.
    pub streaming: bool,
    /// Whether the level loop has seen speech-level audio in this session.
    pub speech_detected: bool,
    /// Stops the microphone when signalled.
    pub stop_tx: Option<S>,
    /// The live audio buffer.
    pub audio_buf: Option<B>,
    /// The streaming WebSocket task.
    pub stream_task: Option<T>,
}

/// What `stop` hands over: the session's generation, whether it streams,
/// whether speech was seen, and the capture resources released.
pub struct Stopped<S, B, T> {
    pub generation: u64,
    pub streaming: bool,
    pub speech_detected: bool,
    pub released: Released<S, B, T>,
}

/// A new session, unless one is in flight.
pub open spec fn claim_spec<S, B, T>(c: DaemonCore<S, B, T>, streaming: bool) -> DaemonCore<S, B, T> {
    if busy(c.state) {
        c
    } else {
        DaemonCore {
            state: DaemonState::Recording,
            generation: (c.generation + 1) as u64,
            streaming,
            speech_detected: false,
            stop_tx: None,
            audio_buf: None,
            stream_task: None,
        }
    }
}

/// Session `g` moves to `to` if it is still current; a terminal state
/// releases the capture.
pub open spec fn transition_spec<S, B, T>(c: DaemonCore<S, B, T>, g: u64, to: DaemonState) -> DaemonCore<S, B, T> {
    if c.generation != g {
        c
    } else if terminal(to) {
        DaemonCore { state: to, stop_tx: None, audio_buf: None, stream_task: None, ..c }
    } else {
        DaemonCore { state: to, ..c }
    }
}

/// Whether a stop takes effect: the daemon is recording, and the stop
/// names no other session.
pub open spec fn stops<S, B, T>(c: DaemonCore<S, B, T>, expected: Option<u64>) -> bool {
    c.state is Recording && !(expected matches Some(g) && g != c.generation)
}

/// The recording ends: the state becomes Streaming or Transcribing and the
/// capture is released.
pub open spec fn stop_spec<S, B, T>(c: DaemonCore<S, B, T>, expected: Option<u64>) -> DaemonCore<S, B, T> {
    if stops(c, expected) {
        DaemonCore {
            state: if c.streaming {
                DaemonState::Streaming
            } else {
                DaemonState::Transcribing
            },
            stop_tx: None,
            audio_buf: None,
            stream_task: None,
            ..c
        }
    } else {
        c
    }
}

/// The session is cancelled: a new generation, Idle, nothing held.
pub open spec fn cancel_spec<S, B, T>(c: DaemonCore<S, B, T>) -> DaemonCore<S, B, T> {
    DaemonCore {
        state: DaemonState::Idle,
        generation: (c.generation + 1) as u64,
        stop_tx: None,
        audio_buf: None,
        stream_task: None,
        ..c
    }
}

/// Session `g`, if current, has heard speech.
pub open spec fn mark_speech_spec<S, B, T>(c: DaemonCore<S, B, T>, g: u64) -> DaemonCore<S, B, T> {
    if c.generation == g {
        DaemonCore { speech_detected: true, ..c }
    } else {
        c
    }
}

impl<S, B, T> DaemonCore<S, B, T> {
    /// No capture resource outlives its session: whatever is held belongs
    /// to a session still in flight.
    pub open spec fn wf(&self) -> bool {
        !busy(self.state) ==> (self.stop_tx is None && self.audio_buf is None
            && self.stream_task is None)
    }

    /// Holds no capture resource.
    pub open spec fn released_all(&self) -> bool {
        self.stop_tx is None && self.audio_buf is None && self.stream_task is None
    }

    /// A fresh core: Idle, generation 0, nothing captured.
    pub fn new() -> (r: Self)
        ensures
            r.wf(),
            r.state is Idle,
            r.generation == 0,
            !r.streaming,
            !r.speech_detected,
            r.released_all(),
    {
        DaemonCore {
            state: DaemonState::Idle,
            generation: 0,
            streaming: false,
            speech_detected: false,
            stop_tx: None,
            audio_buf: None,
            stream_task: None,
        }
    }

    /// Stop the microphone and release everything, returning what was held.
    /// The one teardown path for every way a recording can end.
    fn teardown(&mut self, abort_stream: bool) -> (r: Released<S, B, T>)
        ensures
            final(self).released_all(),
            r.stop == old(self).stop_tx,
            r.buffer == old(self).audio_buf,
            r.task == old(self).stream_task,
            r.abort == abort_stream,
            final(self).state == old(self).state,
            final(self).generation == old(self).generation,
            final(self).streaming == old(self).streaming,
            final(self).speech_detected == old(self).speech_detected,
    {
        let stop = self.stop_tx.take();
        let task = self.stream_task.take();
        let buffer = self.audio_buf.take();
        Released { stop, task, abort: abort_stream, buffer }
    }

    /// Whether `generation` is still the current session.
    pub fn is_current(&self, generation: u64) -> (r: bool)
        ensures
            r == (self.generation == generation),
    {
        self.generation == generation
    }

    /// Whether session `generation` is current and still recording.
    pub fn is_recording(&self, generation: u64) -> (r: bool)
        ensures
            r == (self.generation == generation && self.state is Recording),
    {
        self.generation == generation && self.state.is_recording()
    }

    /// Begin a new session: refused while one is in flight; otherwise any
    /// leftover capture is released (aborting a stream), the generation is
    /// bumped and the state becomes Recording. Returns the new generation.
    pub fn claim_start(&mut self, streaming: bool) -> (r: Result<(u64, Released<S, B, T>), String>)
        requires
            old(self).wf(),
            old(self).generation < u64::MAX,
        ensures
            final(self).wf(),
            *final(self) == claim_spec(*old(self), streaming),
            busy(old(self).state) ==> (r matches Err(m) && m@ == "already recording or transcribing"@
                && *final(self) == *old(self)),
            !busy(old(self).state) ==> (r matches Ok((g, rel)) && g == final(self).generation
                && g == old(self).generation + 1 && final(self).state is Recording
                && final(self).streaming == streaming && !final(self).speech_detected
                && final(self).released_all() && rel.stop == old(self).stop_tx
                && rel.buffer == old(self).audio_buf && rel.task == old(self).stream_task
                && rel.abort),
    {
        if self.state.is_busy() {
            return Err(to_string("already recording or transcribing"));
        }
        let released = self.teardown(true);
        self.generation = self.generation + 1;
        self.state = DaemonState::Recording;
        self.streaming = streaming;
        self.speech_detected = false;
        Ok((self.generation, released))
    }

    /// Store the capture handles, unless the session was cancelled (or moved
    /// on) while the device was opening: then they come back, and the
    /// microphone must be stopped straight away.
    pub fn attach_capture(&mut self, generation: u64, stop_tx: S, buf: B) -> (r: Option<(S, B)>)
        requires
            old(self).wf(),
        ensures
            final(self).wf(),
            old(self).generation == generation && old(self).state is Recording ==> (r is None
                && final(self).stop_tx == Some(stop_tx) && final(self).audio_buf == Some(buf)
                && final(self).state == old(self).state && final(self).generation
                == old(self).generation && final(self).streaming == old(self).streaming
                && final(self).speech_detected == old(self).speech_detected
                && final(self).stream_task == old(self).stream_task),
            !(old(self).generation == generation && old(self).state is Recording) ==> (r
                == Some((stop_tx, buf)) && *final(self) == *old(self)),
    {
        if self.generation != generation || !self.state.is_recording() {
            return Some((stop_tx, buf));
        }
        self.stop_tx = Some(stop_tx);
        self.audio_buf = Some(buf);
        None
    }

    /// Store the WebSocket task, unless the session has already ended: then
    /// it comes back, to be aborted. A stop during the handshake is fine
    /// (the state is then Streaming).
    pub fn attach_stream(&mut self, generation: u64, task: T) -> (r: Option<T>)
        requires
            old(self).wf(),
        ensures
            final(self).wf(),
            old(self).generation == generation && busy(old(self).state) ==> (r is None
                && *final(self) == (DaemonCore { stream_task: Some(task), ..*old(self) })),
            !(old(self).generation == generation && busy(old(self).state)) ==> (r == Some(task)
                && *final(self) == *old(self)),
    {
        if self.generation != generation || !self.state.is_busy() {
            return Some(task);
        }
        self.stream_task = Some(task);
        None
    }

    /// Record that session `generation` has heard speech.
    pub fn mark_speech(&mut self, generation: u64)
        requires
            old(self).wf(),
        ensures
            final(self).wf(),
            *final(self) == mark_speech_spec(*old(self), generation),
            old(self).generation == generation ==> *final(self) == (DaemonCore {
                speech_detected: true,
                ..*old(self)
            }),
            old(self).generation != generation ==> *final(self) == *old(self),
    {
        if self.generation == generation {
            self.speech_detected = true;
        }
    }

    /// Move to `to` if `generation` is still current; entering a terminal
    /// state releases any capture the session still holds (aborting a
    /// stream). Returns `None` when the session is stale.
    pub fn transition(&mut self, generation: u64, to: DaemonState) -> (r: Option<
        Released<S, B, T>,
    >)
        requires
            old(self).wf(),
        ensures
            final(self).wf(),
            *final(self) == transition_spec(*old(self), generation, to),
            old(self).generation != generation ==> (r is None && *final(self) == *old(self)),
            old(self).generation == generation ==> (r matches Some(rel) && final(self).state == to
                && final(self).generation == old(self).generation && final(self).streaming
                == old(self).streaming && final(self).speech_detected
                == old(self).speech_detected && (terminal(to) ==> (final(self).released_all()
                && rel.stop == old(self).stop_tx && rel.buffer == old(self).audio_buf
                && rel.task == old(self).stream_task && rel.abort)) && (!terminal(to) ==> (
            rel.stop is None && rel.buffer is None && rel.task is None
                && final(self).stop_tx == old(self).stop_tx && final(self).audio_buf
                == old(self).audio_buf && final(self).stream_task == old(self).stream_task))),
    {
        if self.generation != generation {
            return None;
        }
        let released = if to.is_terminal() {
            self.teardown(true)
        } else {
            Released { stop: None, task: None, abort: false, buffer: None }
        };
        self.state = to;
        Some(released)
    }

    /// End the recording: only from Recording, and only the session
    /// `expected` names when it names one. The state becomes Streaming or
    /// Transcribing; the microphone is released, while a stream is left to
    /// flush (not aborted). Returns `None` when there was nothing to stop.
    pub fn stop(&mut self, expected: Option<u64>) -> (r: Option<Stopped<S, B, T>>)
        requires
            old(self).wf(),
        ensures
            final(self).wf(),
            *final(self) == stop_spec(*old(self), expected),
            r is Some == stops(*old(self), expected),
            !(old(self).state is Recording) || (expected matches Some(g) && g
                != old(self).generation) ==> (r is None && *final(self) == *old(self)),
            old(self).state is Recording && !(expected matches Some(g) && g
                != old(self).generation) ==> (r matches Some(st) && st.generation
                == old(self).generation && st.streaming == old(self).streaming
                && st.speech_detected == old(self).speech_detected && st.released.stop
                == old(self).stop_tx && st.released.buffer == old(self).audio_buf
                && st.released.task == old(self).stream_task && !st.released.abort
                && final(self).released_all() && final(self).generation == old(self).generation
                && final(self).streaming == old(self).streaming && final(self).speech_detected
                == old(self).speech_detected && (if old(self).streaming {
                final(self).state is Streaming
            } else {
                final(self).state is Transcribing
            })),
    {
        if !self.state.is_recording() {
            return None;
        }
        if let Some(g) = expected {
            if g != self.generation {
                return None;
            }
        }
        self.state = if self.streaming {
            DaemonState::Streaming
        } else {
            DaemonState::Transcribing
        };
        let released = self.teardown(false);
        Some(
            Stopped {
                generation: self.generation,
                streaming: self.streaming,
                speech_detected: self.speech_detected,
                released,
            },
        )
    }

    /// Cancel the current session without delivering anything: whatever is
    /// in flight is invalidated by a new generation, the state becomes Idle
    /// and the capture is released, aborting a stream (an abort yields no
    /// further transcript, unlike ending the audio).
    pub fn cancel(&mut self) -> (r: Released<S, B, T>)
        requires
            old(self).wf(),
            old(self).generation < u64::MAX,
        ensures
            final(self).wf(),
            *final(self) == cancel_spec(*old(self)),
            final(self).generation == old(self).generation + 1,
            final(self).state is Idle,
            final(self).released_all(),
            final(self).streaming == old(self).streaming,
            final(self).speech_detected == old(self).speech_detected,
            r.stop == old(self).stop_tx,
            r.buffer == old(self).audio_buf,
            r.task == old(self).stream_task,
            r.abort,
    {
        self.generation = self.generation + 1;
        self.state = DaemonState::Idle;
        self.teardown(true)
    }

    /// The name of the current state.
    pub fn state_name(&self) -> (r: &str)
        ensures
            r@ == state_name(self.state),
    {
        self.state.as_str()
    }
}

/// Work of an earlier session changes nothing: a transition, a speech mark
/// or a stop that names a generation other than the current one is
/// ignored.
pub proof fn law_stale_work_changes_nothing<S, B, T>(
    c: DaemonCore<S, B, T>,
    g: u64,
    to: DaemonState,
)
    requires
        g != c.generation,
    ensures
        transition_spec(c, g, to) == c,
        mark_speech_spec(c, g) == c,
        stop_spec(c, Some(g)) == c,
{
}

/// A cancel ends the session for good: its generation is never current
/// again, so nothing it still has in flight can deliver or change the
/// state, and a stop after the cancel does nothing.
pub proof fn law_cancel_ends_the_session<S, B, T>(
    c: DaemonCore<S, B, T>,
    to: DaemonState,
    expected: Option<u64>,
)
    requires
        c.generation < u64::MAX,
    ensures
        cancel_spec(c).state is Idle,
        cancel_spec(c).released_all(),
        cancel_spec(c).generation > c.generation,
        transition_spec(cancel_spec(c), c.generation, to) == cancel_spec(c),
        mark_speech_spec(cancel_spec(c), c.generation) == cancel_spec(c),
        stop_spec(cancel_spec(c), expected) == cancel_spec(c),
{
}

/// Of two stops racing (the user's and the silence detector's), only the
/// first takes effect.
pub proof fn law_only_one_stop_takes_effect<S, B, T>(
    c: DaemonCore<S, B, T>,
    first: Option<u64>,
    second: Option<u64>,
)
    ensures
        stops(c, first) ==> !stops(stop_spec(c, first), second),
{
}

/// A recording can only start when no session is in flight, and a started
/// session gets a generation newer than any before it.
pub proof fn law_sessions_do_not_overlap<S, B, T>(c: DaemonCore<S, B, T>, streaming: bool)
    requires
        c.generation < u64::MAX,
    ensures
        busy(c.state) ==> claim_spec(c, streaming) == c,
        !busy(c.state) ==> claim_spec(c, streaming).generation > c.generation && claim_spec(
            c,
            streaming,
        ).state is Recording,
{
}

/// No capture outlives its session: every operation keeps the core well
/// formed, so outside a session in flight nothing is held.
pub proof fn law_capture_never_outlives_its_session<S, B, T>(
    c: DaemonCore<S, B, T>,
    g: u64,
    to: DaemonState,
    expected: Option<u64>,
    streaming: bool,
)
    requires
        c.wf(),
    ensures
        claim_spec(c, streaming).wf(),
        transition_spec(c, g, to).wf(),
        stop_spec(c, expected).wf(),
        cancel_spec(c).wf(),
        mark_speech_spec(c, g).wf(),
{
}

} // verus!
