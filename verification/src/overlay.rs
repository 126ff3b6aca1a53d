//! The overlay's decisions: what a daemon event does to the session (type,
//! copy, show a message), what the window shows for a daemon state, and what
//! a global shortcut asks of the daemon. The overlay process performs the
//! actions and reports back whether typing worked.

use vstd::prelude::*;

use crate::text::{
    ellipsis, push_str, str_eq, strip_prefix, to_string, trim, trim_end, trim_end_seq, trim_seq,
};

verus! {

/// Longest error message shown in the overlay; the full text is in the
/// daemon's journal.
pub const MAX_ERROR_CHARS: usize = 80;

/// `s` trimmed and, when longer than `max` characters, cut to `max`
/// characters, trimmed at the end again and marked with an ellipsis.
pub open spec fn truncate_spec(s: Seq<char>, max: nat) -> Seq<char> {
    let t = trim_seq(s);
    if t.len() > max {
        trim_end_seq(t.take(max as int)).push(ellipsis())
    } else {
        t
    }
}

/// Truncate to at most `max` characters (not bytes), adding an ellipsis.
pub fn truncate(s: &str, max: usize) -> (r: String)
    ensures
        r@ == truncate_spec(s@, max as nat),
{
    let t = trim(s);
    if t.unicode_len() > max {
        let cut = trim_end(t.substring_char(0, max));
        proof {
            assert(t@.subrange(0, max as int) =~= t@.take(max as int));
        }
        let mut r = to_string(cut);
        r.push('\u{2026}');
        r
    } else {
        to_string(t)
    }
}

/// How a session's text reached the user.
#[derive(Debug, Clone, Copy, PartialEq, Eq)]
pub enum Delivery {
    Typed,
    Copied,
    /// The final text disagreed with the streamed text already typed.
    Mismatch,
}

/// What the session waits to hear back from the overlay process.
#[derive(Debug)]
pub enum Awaiting {
    Nothing,
    /// The direct-injection setting, read at the start of a recording.
    Injection,
    /// Whether typing the new part of this cumulative chunk worked.
    Chunk(String),
    /// Whether typing (the rest of) this final text worked.
    Final(String),
}

/// The abstract value of `Awaiting`.
pub enum AwaitingView {
    Nothing,
    Injection,
    Chunk(Seq<char>),
    Final(Seq<char>),
}

impl View for Awaiting {
    type V = AwaitingView;

    open spec fn view(&self) -> AwaitingView {
        match self {
            Awaiting::Nothing => AwaitingView::Nothing,
            Awaiting::Injection => AwaitingView::Injection,
            Awaiting::Chunk(t) => AwaitingView::Chunk(t@),
            Awaiting::Final(t) => AwaitingView::Final(t@),
        }
    }
}

/// A daemon signal, as the overlay's session sees it.
#[derive(Debug)]
pub enum OverlayEvent {
    StateChanged(String),
    ErrorOccurred(String),
    SessionDiscarded(String),
    TranscriptionChunk(String),
    TranscriptionReady(String),
}

/// The abstract value of `OverlayEvent`.
pub enum EventView {
    StateChanged(Seq<char>),
    ErrorOccurred(Seq<char>),
    SessionDiscarded(Seq<char>),
    TranscriptionChunk(Seq<char>),
    TranscriptionReady(Seq<char>),
}

impl View for OverlayEvent {
    type V = EventView;

    open spec fn view(&self) -> EventView {
        match self {
            OverlayEvent::StateChanged(s) => EventView::StateChanged(s@),
            OverlayEvent::ErrorOccurred(s) => EventView::ErrorOccurred(s@),
            OverlayEvent::SessionDiscarded(s) => EventView::SessionDiscarded(s@),
            OverlayEvent::TranscriptionChunk(s) => EventView::TranscriptionChunk(s@),
            OverlayEvent::TranscriptionReady(s) => EventView::TranscriptionReady(s@),
        }
    }
}

/// What the overlay process does next.
#[derive(Debug)]
pub enum OverlayAction {
    Nothing,
    /// Let the window follow the daemon state.
    ShowState(String),
    /// Show a message for this many milliseconds.
    ShowMessage(String, u32),
    /// Read the direct-injection setting, then call `recording_started`.
    LoadDirectInjection,
    /// Type this text, then call `chunk_typed`.
    TypeChunk(String),
    /// Type this text, then call `final_typed`.
    TypeFinal(String),
    /// Put this text on the clipboard.
    Copy(String),
}

/// The abstract value of `OverlayAction`.
pub enum ActionView {
    Nothing,
    ShowState(Seq<char>),
    ShowMessage(Seq<char>, u32),
    LoadDirectInjection,
    TypeChunk(Seq<char>),
    TypeFinal(Seq<char>),
    Copy(Seq<char>),
}

impl View for OverlayAction {
    type V = ActionView;

    open spec fn view(&self) -> ActionView {
        match self {
            OverlayAction::Nothing => ActionView::Nothing,
            OverlayAction::ShowState(s) => ActionView::ShowState(s@),
            OverlayAction::ShowMessage(s, ms) => ActionView::ShowMessage(s@, *ms),
            OverlayAction::LoadDirectInjection => ActionView::LoadDirectInjection,
            OverlayAction::TypeChunk(s) => ActionView::TypeChunk(s@),
            OverlayAction::TypeFinal(s) => ActionView::TypeFinal(s@),
            OverlayAction::Copy(s) => ActionView::Copy(s@),
        }
    }
}

/// The overlay's record of the current session.
#[derive(Debug)]
pub struct OverlaySession {
    /// Type the text into the focused window rather than copy it.
    pub direct_injection: bool,
    /// The streaming transcript typed so far this session. Chunks are
    /// cumulative, so each one types only its suffix beyond this.
    pub stream_typed: String,
    /// Whether any chunk was typed this session; the final text is then
    /// only ever completed, never retyped from scratch.
    pub typed_via_chunks: bool,
    /// Typing a chunk failed; the final text goes to the clipboard instead.
    pub inject_failed: bool,
    /// How the last result was delivered; picks the Done message.
    pub output: Delivery,
    /// Latest reported error, shown on the following Error state.
    pub last_error: Option<String>,
    /// A discard message is showing; the Idle that follows must not cut it.
    pub discard_shown: bool,
    /// The last daemon state seen.
    pub prev_state: String,
    /// The report the session waits for.
    pub awaiting: Awaiting,
}

/// The abstract value of `OverlaySession`.
pub struct SessionView {
    pub direct_injection: bool,
    pub stream_typed: Seq<char>,
    pub typed_via_chunks: bool,
    pub inject_failed: bool,
    pub output: Delivery,
    pub last_error: Option<Seq<char>>,
    pub discard_shown: bool,
    pub prev_state: Seq<char>,
    pub awaiting: AwaitingView,
}

/// The abstract value of an optional string.
pub open spec fn opt_view(o: Option<String>) -> Option<Seq<char>> {
    match o {
        Some(s) => Some(s@),
        None => None,
    }
}

impl View for OverlaySession {
    type V = SessionView;

    open spec fn view(&self) -> SessionView {
        SessionView {
            direct_injection: self.direct_injection,
            stream_typed: self.stream_typed@,
            typed_via_chunks: self.typed_via_chunks,
            inject_failed: self.inject_failed,
            output: self.output,
            last_error: opt_view(self.last_error),
            discard_shown: self.discard_shown,
            prev_state: self.prev_state@,
            awaiting: self.awaiting@,
        }
    }
}

/// The message shown on Done for each way of delivery.
pub open spec fn done_message(d: Delivery) -> Seq<char> {
    match d {
        Delivery::Typed => "\u{2713} Typed!"@,
        Delivery::Copied => "\u{2713} Copied!"@,
        Delivery::Mismatch => "Copied (stream mismatch)"@,
    }
}

/// The message shown on Error: the last reported error, shortened, or a
/// pointer to the logs.
pub open spec fn error_message(e: Option<Seq<char>>) -> Seq<char> {
    match e {
        Some(m) => "\u{2717} "@ + truncate_spec(m, MAX_ERROR_CHARS as nat),
        None => "\u{2717} Error \u{2014} check logs"@,
    }
}

/// A session right after a recording starts: nothing typed, nothing failed,
/// no error pending, waiting for the injection setting.
pub open spec fn fresh_session(s: SessionView, state: Seq<char>) -> SessionView {
    SessionView {
        direct_injection: s.direct_injection,
        stream_typed: Seq::empty(),
        typed_via_chunks: false,
        inject_failed: false,
        output: Delivery::Copied,
        last_error: None,
        discard_shown: false,
        prev_state: state,
        awaiting: AwaitingView::Injection,
    }
}

/// Whether chunks are typed in this state: only while the session is live.
pub open spec fn accepts_chunks(prev_state: Seq<char>) -> bool {
    prev_state == "Recording"@ || prev_state == "Streaming"@
}

/// What a daemon state change does to the session.
pub open spec fn on_state(s: SessionView, st: Seq<char>) -> (SessionView, ActionView) {
    let moved = SessionView { prev_state: st, ..s };
    if st == "Recording"@ {
        (fresh_session(s, st), ActionView::LoadDirectInjection)
    } else if st == "Done"@ {
        (moved, ActionView::ShowMessage(done_message(s.output), 800))
    } else if st == "Error"@ {
        (SessionView { last_error: None, ..moved }, ActionView::ShowMessage(
            error_message(s.last_error),
            3500,
        ))
    } else if st == "Idle"@ {
        if s.discard_shown {
            (SessionView { discard_shown: false, ..moved }, ActionView::Nothing)
        } else if s.prev_state == "Done"@ || s.prev_state == "Error"@ {
            (moved, ActionView::Nothing)
        } else {
            (moved, ActionView::ShowState(st))
        }
    } else {
        (moved, ActionView::ShowState(st))
    }
}

/// What a session discard does: a short message for the two known reasons.
pub open spec fn on_discard(s: SessionView, reason: Seq<char>) -> (SessionView, ActionView) {
    if reason == "cancelled"@ {
        (SessionView { discard_shown: true, ..s }, ActionView::ShowMessage("Cancelled"@, 800))
    } else if reason == "no-speech"@ {
        (SessionView { discard_shown: true, ..s }, ActionView::ShowMessage(
            "No speech detected"@,
            1200,
        ))
    } else {
        (s, ActionView::Nothing)
    }
}

/// What a cumulative streaming chunk does: type only what extends the text
/// already typed, and only in a live session in typing mode.
pub open spec fn on_chunk(s: SessionView, t: Seq<char>) -> (SessionView, ActionView) {
    if !accepts_chunks(s.prev_state) || !s.direct_injection || s.inject_failed {
        (s, ActionView::Nothing)
    } else if !s.stream_typed.is_prefix_of(t) || t.len() == s.stream_typed.len() {
        (s, ActionView::Nothing)
    } else {
        (SessionView { awaiting: AwaitingView::Chunk(t), ..s }, ActionView::TypeChunk(
            t.skip(s.stream_typed.len() as int),
        ))
    }
}

/// What the final text does: copy it in clipboard mode, complete what the
/// chunks typed, or type it whole.
pub open spec fn on_final(s: SessionView, t: Seq<char>) -> (SessionView, ActionView) {
    if s.prev_state == "Idle"@ {
        (s, ActionView::Nothing)
    } else if !s.direct_injection || s.inject_failed {
        (SessionView { output: Delivery::Copied, ..s }, ActionView::Copy(t))
    } else if s.typed_via_chunks {
        if !s.stream_typed.is_prefix_of(t) {
            (SessionView { output: Delivery::Mismatch, ..s }, ActionView::Copy(t))
        } else if t.len() == s.stream_typed.len() {
            (SessionView { output: Delivery::Typed, ..s }, ActionView::Nothing)
        } else {
            (SessionView { awaiting: AwaitingView::Final(t), ..s }, ActionView::TypeFinal(
                t.skip(s.stream_typed.len() as int),
            ))
        }
    } else {
        (SessionView { awaiting: AwaitingView::Final(t), ..s }, ActionView::TypeFinal(t))
    }
}

/// What a daemon event does to the session, and what the overlay does.
pub open spec fn handle_spec(s: SessionView, e: EventView) -> (SessionView, ActionView) {
    match e {
        EventView::StateChanged(st) => on_state(s, st),
        EventView::ErrorOccurred(m) => (SessionView { last_error: Some(m), ..s }, ActionView::Nothing),
        EventView::SessionDiscarded(reason) => on_discard(s, reason),
        EventView::TranscriptionChunk(t) => on_chunk(s, t),
        EventView::TranscriptionReady(t) => on_final(s, t),
    }
}

/// The session once the injection setting is known: the window shows the
/// recording. Without a pending read nothing changes.
pub open spec fn started_spec(s: SessionView, direct_injection: bool) -> (SessionView, ActionView) {
    match s.awaiting {
        AwaitingView::Injection => (
            SessionView { direct_injection, awaiting: AwaitingView::Nothing, ..s },
            ActionView::ShowState("Recording"@),
        ),
        _ => (s, ActionView::Nothing),
    }
}

/// The session once typing a chunk has worked or failed: on success the
/// chunk counts as typed; on failure the final text will be copied.
pub open spec fn chunk_typed_spec(s: SessionView, ok: bool) -> SessionView {
    match s.awaiting {
        AwaitingView::Chunk(t) => if ok {
            SessionView {
                typed_via_chunks: true,
                stream_typed: t,
                awaiting: AwaitingView::Nothing,
                ..s
            }
        } else {
            SessionView { inject_failed: true, awaiting: AwaitingView::Nothing, ..s }
        },
        _ => s,
    }
}

/// The session once typing the final text has worked or failed; a failure
/// puts the whole text on the clipboard.
pub open spec fn final_typed_spec(s: SessionView, ok: bool) -> (SessionView, ActionView) {
    match s.awaiting {
        AwaitingView::Final(t) => if ok {
            (SessionView { output: Delivery::Typed, awaiting: AwaitingView::Nothing, ..s }, ActionView::Nothing)
        } else {
            (
                SessionView { output: Delivery::Copied, awaiting: AwaitingView::Nothing, ..s },
                ActionView::Copy(t),
            )
        },
        _ => (s, ActionView::Nothing),
    }
}

fn delivery_message(d: Delivery) -> (r: String)
    ensures
        r@ == done_message(d),
{
    match d {
        Delivery::Typed => to_string("\u{2713} Typed!"),
        Delivery::Copied => to_string("\u{2713} Copied!"),
        Delivery::Mismatch => to_string("Copied (stream mismatch)"),
    }
}

impl OverlaySession {
    /// The session before any signal: idle, clipboard mode.
    pub fn new() -> (r: Self)
        ensures
            r@ == (SessionView {
                direct_injection: false,
                stream_typed: Seq::empty(),
                typed_via_chunks: false,
                inject_failed: false,
                output: Delivery::Copied,
                last_error: None,
                discard_shown: false,
                prev_state: "Idle"@,
                awaiting: AwaitingView::Nothing,
            }),
    {
        OverlaySession {
            direct_injection: false,
            stream_typed: String::new(),
            typed_via_chunks: false,
            inject_failed: false,
            output: Delivery::Copied,
            last_error: None,
            discard_shown: false,
            prev_state: to_string("Idle"),
            awaiting: Awaiting::Nothing,
        }
    }

    fn on_state(&mut self, st: String) -> (r: OverlayAction)
        ensures
            (final(self)@, r@) == on_state(old(self)@, st@),
    {
        if str_eq(st.as_str(), "Recording") {
            self.stream_typed = String::new();
            self.typed_via_chunks = false;
            self.inject_failed = false;
            self.output = Delivery::Copied;
            self.last_error = None;
            self.discard_shown = false;
            self.awaiting = Awaiting::Injection;
            self.prev_state = st;
            return OverlayAction::LoadDirectInjection;
        }
        let action = if str_eq(st.as_str(), "Done") {
            OverlayAction::ShowMessage(delivery_message(self.output), 800)
        } else if str_eq(st.as_str(), "Error") {
            let msg = match &self.last_error {
                Some(m) => {
                    let mut out = to_string("\u{2717} ");
                    let cut = truncate(m.as_str(), MAX_ERROR_CHARS);
                    push_str(&mut out, cut.as_str());
                    out
                },
                None => to_string("\u{2717} Error \u{2014} check logs"),
            };
            self.last_error = None;
            OverlayAction::ShowMessage(msg, 3500)
        } else if str_eq(st.as_str(), "Idle") {
            if self.discard_shown {
                self.discard_shown = false;
                OverlayAction::Nothing
            } else if str_eq(self.prev_state.as_str(), "Done") || str_eq(
                self.prev_state.as_str(),
                "Error",
            ) {
                OverlayAction::Nothing
            } else {
                OverlayAction::ShowState(st.clone())
            }
        } else {
            OverlayAction::ShowState(st.clone())
        };
        self.prev_state = st;
        action
    }

    fn on_chunk(&mut self, text: String) -> (r: OverlayAction)
        ensures
            (final(self)@, r@) == on_chunk(old(self)@, text@),
    {
        let live = str_eq(self.prev_state.as_str(), "Recording") || str_eq(
            self.prev_state.as_str(),
            "Streaming",
        );
        if !live || !self.direct_injection || self.inject_failed {
            return OverlayAction::Nothing;
        }
        let delta = match strip_prefix(text.as_str(), self.stream_typed.as_str()) {
            Some(d) => to_string(d),
            None => {
                return OverlayAction::Nothing;
            },
        };
        if delta.unicode_len() == 0 {
            return OverlayAction::Nothing;
        }
        self.awaiting = Awaiting::Chunk(text);
        OverlayAction::TypeChunk(delta)
    }

    fn on_final(&mut self, text: String) -> (r: OverlayAction)
        ensures
            (final(self)@, r@) == on_final(old(self)@, text@),
    {
        if str_eq(self.prev_state.as_str(), "Idle") {
            return OverlayAction::Nothing;
        }
        if !self.direct_injection || self.inject_failed {
            self.output = Delivery::Copied;
            return OverlayAction::Copy(text);
        }
        if self.typed_via_chunks {
            let rest = match strip_prefix(text.as_str(), self.stream_typed.as_str()) {
                Some(r) => to_string(r),
                None => {
                    self.output = Delivery::Mismatch;
                    return OverlayAction::Copy(text);
                },
            };
            if rest.unicode_len() == 0 {
                self.output = Delivery::Typed;
                return OverlayAction::Nothing;
            }
            self.awaiting = Awaiting::Final(text);
            OverlayAction::TypeFinal(rest)
        } else {
            let whole = text.clone();
            self.awaiting = Awaiting::Final(text);
            OverlayAction::TypeFinal(whole)
        }
    }

    /// Feed one daemon signal to the session and get what to do about it.
    pub fn handle(&mut self, event: OverlayEvent) -> (r: OverlayAction)
        ensures
            (final(self)@, r@) == handle_spec(old(self)@, event@),
    {
        match event {
            OverlayEvent::StateChanged(st) => self.on_state(st),
            OverlayEvent::ErrorOccurred(m) => {
                self.last_error = Some(m);
                OverlayAction::Nothing
            },
            OverlayEvent::SessionDiscarded(reason) => {
                if str_eq(reason.as_str(), "cancelled") {
                    self.discard_shown = true;
                    OverlayAction::ShowMessage(to_string("Cancelled"), 800)
                } else if str_eq(reason.as_str(), "no-speech") {
                    self.discard_shown = true;
                    OverlayAction::ShowMessage(to_string("No speech detected"), 1200)
                } else {
                    OverlayAction::Nothing
                }
            },
            OverlayEvent::TranscriptionChunk(t) => self.on_chunk(t),
            OverlayEvent::TranscriptionReady(t) => self.on_final(t),
        }
    }

    /// Report the direct-injection setting read at the start of a recording.
    pub fn recording_started(&mut self, direct_injection: bool) -> (r: OverlayAction)
        ensures
            (final(self)@, r@) == started_spec(old(self)@, direct_injection),
    {
        match self.awaiting {
            Awaiting::Injection => {
                self.direct_injection = direct_injection;
                self.awaiting = Awaiting::Nothing;
                OverlayAction::ShowState(to_string("Recording"))
            },
            _ => OverlayAction::Nothing,
        }
    }

    /// Report whether typing the last `TypeChunk` worked.
    pub fn chunk_typed(&mut self, ok: bool)
        ensures
            final(self)@ == chunk_typed_spec(old(self)@, ok),
    {
        let mut awaiting = Awaiting::Nothing;
        std::mem::swap(&mut awaiting, &mut self.awaiting);
        match awaiting {
            Awaiting::Chunk(t) => {
                if ok {
                    self.typed_via_chunks = true;
                    self.stream_typed = t;
                } else {
                    self.inject_failed = true;
                }
            },
            other => {
                self.awaiting = other;
            },
        }
    }

    /// Report whether typing the last `TypeFinal` worked.
    pub fn final_typed(&mut self, ok: bool) -> (r: OverlayAction)
        ensures
            (final(self)@, r@) == final_typed_spec(old(self)@, ok),
    {
        let mut awaiting = Awaiting::Nothing;
        std::mem::swap(&mut awaiting, &mut self.awaiting);
        match awaiting {
            Awaiting::Final(t) => {
                if ok {
                    self.output = Delivery::Typed;
                    OverlayAction::Nothing
                } else {
                    self.output = Delivery::Copied;
                    OverlayAction::Copy(t)
                }
            },
            other => {
                self.awaiting = other;
                OverlayAction::Nothing
            },
        }
    }
}

/// What the overlay window does for a daemon state.
#[derive(Debug, PartialEq, Eq)]
pub enum WindowUpdate {
    /// Show the level bars.
    ShowRecording,
    /// Hide the bars and show a line of text, fading out after the delay
    /// if there is one; `reset_level` first drops the bars to silence.
    ShowText { text: String, fade_after_ms: Option<u32>, reset_level: bool },
    /// Fade the window out after this delay.
    FadeOut(u32),
    /// Leave the window as it is.
    Unchanged,
}

/// The abstract value of `WindowUpdate`.
pub enum WindowUpdateView {
    ShowRecording,
    ShowText(Seq<char>, Option<u32>, bool),
    FadeOut(u32),
    Unchanged,
}

impl View for WindowUpdate {
    type V = WindowUpdateView;

    open spec fn view(&self) -> WindowUpdateView {
        match self {
            WindowUpdate::ShowRecording => WindowUpdateView::ShowRecording,
            WindowUpdate::ShowText { text, fade_after_ms, reset_level } => WindowUpdateView::ShowText(
                text@,
                *fade_after_ms,
                *reset_level,
            ),
            WindowUpdate::FadeOut(ms) => WindowUpdateView::FadeOut(*ms),
            WindowUpdate::Unchanged => WindowUpdateView::Unchanged,
        }
    }
}

/// The window's reaction to each daemon state.
pub open spec fn handle_state_spec(state: Seq<char>) -> WindowUpdateView {
    if state == "Recording"@ {
        WindowUpdateView::ShowRecording
    } else if state == "Transcribing"@ {
        WindowUpdateView::ShowText("Transcribing..."@, None, true)
    } else if state == "Done"@ {
        WindowUpdateView::ShowText("\u{2713} Copied!"@, Some(800), false)
    } else if state == "Error"@ {
        WindowUpdateView::ShowText("\u{2717} Error \u{2014} check logs"@, Some(2500), false)
    } else if state == "Idle"@ {
        WindowUpdateView::FadeOut(0)
    } else {
        WindowUpdateView::Unchanged
    }
}

/// What the overlay window does when the daemon enters `state`.
pub fn handle_state(state: &str) -> (r: WindowUpdate)
    ensures
        r@ == handle_state_spec(state@),
{
    if str_eq(state, "Recording") {
        WindowUpdate::ShowRecording
    } else if str_eq(state, "Transcribing") {
        WindowUpdate::ShowText {
            text: to_string("Transcribing..."),
            fade_after_ms: None,
            reset_level: true,
        }
    } else if str_eq(state, "Done") {
        WindowUpdate::ShowText {
            text: to_string("\u{2713} Copied!"),
            fade_after_ms: Some(800),
            reset_level: false,
        }
    } else if str_eq(state, "Error") {
        WindowUpdate::ShowText {
            text: to_string("\u{2717} Error \u{2014} check logs"),
            fade_after_ms: Some(2500),
            reset_level: false,
        }
    } else if str_eq(state, "Idle") {
        WindowUpdate::FadeOut(0)
    } else {
        WindowUpdate::Unchanged
    }
}

/// The daemon call a global shortcut asks for.
#[derive(Debug, Clone, Copy, PartialEq, Eq)]
pub enum DaemonCall {
    StartRecording,
    StopRecording,
    Cancel,
    /// Unknown shortcut, or a toggle while the daemon is busy.
    Nothing,
}

/// The toggle starts a recording from a resting state, stops a running
/// one and is ignored while transcribing; the cancel shortcut cancels.
pub open spec fn shortcut_call_spec(shortcut_id: Seq<char>, state: Seq<char>) -> DaemonCall {
    if shortcut_id == "toggle-recording"@ {
        if state == "Idle"@ || state == "Done"@ || state == "Error"@ {
            DaemonCall::StartRecording
        } else if state == "Recording"@ {
            DaemonCall::StopRecording
        } else {
            DaemonCall::Nothing
        }
    } else if shortcut_id == "cancel-recording"@ {
        DaemonCall::Cancel
    } else {
        DaemonCall::Nothing
    }
}

/// What an activated global shortcut asks of the daemon in `state`.
pub fn shortcut_call(shortcut_id: &str, state: &str) -> (r: DaemonCall)
    ensures
        r == shortcut_call_spec(shortcut_id@, state@),
{
    if str_eq(shortcut_id, "toggle-recording") {
        if str_eq(state, "Idle") || str_eq(state, "Done") || str_eq(state, "Error") {
            DaemonCall::StartRecording
        } else if str_eq(state, "Recording") {
            DaemonCall::StopRecording
        } else {
            DaemonCall::Nothing
        }
    } else if str_eq(shortcut_id, "cancel-recording") {
        DaemonCall::Cancel
    } else {
        DaemonCall::Nothing
    }
}

/// A streaming chunk types only what extends the text already typed: the
/// typed text followed by what is typed now is the chunk, and once that
/// typing is reported to have worked the chunk is the typed text.
pub proof fn law_chunks_type_only_their_new_part(s: SessionView, t: Seq<char>)
    ensures
        handle_spec(s, EventView::TranscriptionChunk(t)).1 matches ActionView::TypeChunk(d) ==> {
            &&& s.stream_typed + d == t
            &&& d.len() > 0
            &&& chunk_typed_spec(handle_spec(s, EventView::TranscriptionChunk(t)).0, true).stream_typed
                == t
        },
{
    let (s2, a) = handle_spec(s, EventView::TranscriptionChunk(t));
    if let ActionView::TypeChunk(d) = a {
        assert(s.stream_typed + d =~= t);
    }
}

/// The final text is never retyped: after streamed chunks only its rest is
/// typed, and the typed text followed by that rest is the final text.
pub proof fn law_final_text_completes_what_was_typed(s: SessionView, t: Seq<char>)
    ensures
        handle_spec(s, EventView::TranscriptionReady(t)).1 matches ActionView::TypeFinal(d) ==> (if s.typed_via_chunks {
            s.stream_typed + d == t
        } else {
            d == t
        }),
{
    let (s2, a) = handle_spec(s, EventView::TranscriptionReady(t));
    if let ActionView::TypeFinal(d) = a {
        if s.typed_via_chunks {
            assert(s.stream_typed + d =~= t);
        }
    }
}

/// A final text that agrees with what the chunks typed is never copied nor
/// reported as a mismatch: in a live typing session whose chunks typed a
/// prefix of it, a final equal to that prefix is done (shown as typed)
/// with nothing more to do, and a longer one types exactly its rest, after
/// which the session reports it typed.
pub proof fn law_agreeing_final_text_is_typed(s: SessionView, t: Seq<char>)
    requires
        s.prev_state != "Idle"@,
        s.direct_injection,
        !s.inject_failed,
        s.typed_via_chunks,
        s.stream_typed.is_prefix_of(t),
    ensures
        ({
            let (s2, a) = handle_spec(s, EventView::TranscriptionReady(t));
            &&& !(a is Copy)
            &&& s2.output == Delivery::Mismatch ==> s.output == Delivery::Mismatch
            &&& t.len() == s.stream_typed.len() ==> (s2.output == Delivery::Typed && a
                == ActionView::Nothing)
            &&& t.len() > s.stream_typed.len() ==> (a matches ActionView::TypeFinal(d) && s.stream_typed
                + d == t && final_typed_spec(s2, true) == (
                SessionView { output: Delivery::Typed, awaiting: AwaitingView::Nothing, ..s },
                ActionView::Nothing,
            ))
        }),
{
    let (s2, a) = handle_spec(s, EventView::TranscriptionReady(t));
    if t.len() > s.stream_typed.len() {
        if let ActionView::TypeFinal(d) = a {
            assert(s.stream_typed + d =~= t);
        }
    }
}

/// Where no chunk was typed, the final text is delivered whole: copied in
/// clipboard mode or after a chunk failed to type (and reported as
/// copied), typed in typing mode (and reported as typed once that worked,
/// copied whole when it did not).
pub proof fn law_unstreamed_final_text_is_delivered_whole(s: SessionView, t: Seq<char>, ok: bool)
    requires
        s.prev_state != "Idle"@,
    ensures
        ({
            let (s2, a) = handle_spec(s, EventView::TranscriptionReady(t));
            &&& (!s.direct_injection || s.inject_failed) ==> (a == ActionView::Copy(t) && s2.output
                == Delivery::Copied)
            &&& (s.direct_injection && !s.inject_failed && !s.typed_via_chunks) ==> {
                &&& a == ActionView::TypeFinal(t)
                &&& final_typed_spec(s2, ok).1 == (if ok {
                    ActionView::Nothing
                } else {
                    ActionView::Copy(t)
                })
                &&& final_typed_spec(s2, ok).0.output == (if ok {
                    Delivery::Typed
                } else {
                    Delivery::Copied
                })
            }
        }),
{
}

/// A final text is reported as a stream mismatch only when it does not
/// extend what the chunks typed.
pub proof fn law_mismatch_only_when_texts_disagree(s: SessionView, t: Seq<char>)
    ensures
        handle_spec(s, EventView::TranscriptionReady(t)).0.output == Delivery::Mismatch
            && s.output != Delivery::Mismatch ==> !s.stream_typed.is_prefix_of(t),
{
}

/// Text is only ever copied whole: a final text that goes to the clipboard,
/// directly or after typing it failed, is the complete final text.
pub proof fn law_copies_are_whole(s: SessionView, t: Seq<char>, ok: bool)
    ensures
        handle_spec(s, EventView::TranscriptionReady(t)).1 matches ActionView::Copy(x) ==> x == t,
        handle_spec(s, EventView::TranscriptionReady(t)).1 matches ActionView::TypeFinal(_)
            ==> final_typed_spec(handle_spec(s, EventView::TranscriptionReady(t)).0, ok).1 == (if ok {
            ActionView::Nothing
        } else {
            ActionView::Copy(t)
        }),
{
}

/// Results that arrive after a cancel are stale: once the daemon is Idle, a
/// chunk or a final text changes nothing and does nothing.
pub proof fn law_stale_text_is_ignored(s: SessionView, t: Seq<char>)
    requires
        s.prev_state == "Idle"@,
    ensures
        handle_spec(s, EventView::TranscriptionReady(t)) == (s, ActionView::Nothing),
        handle_spec(s, EventView::TranscriptionChunk(t)) == (s, ActionView::Nothing),
{
    reveal_strlit("Idle");
    reveal_strlit("Recording");
    reveal_strlit("Streaming");
    assert("Idle"@[0] != "Recording"@[0]);
    assert("Idle"@[0] != "Streaming"@[0]);
}

/// Nothing is typed in clipboard mode.
pub proof fn law_clipboard_mode_never_types(s: SessionView, e: EventView)
    requires
        !s.direct_injection,
    ensures
        !(handle_spec(s, e).1 is TypeChunk),
        !(handle_spec(s, e).1 is TypeFinal),
{
}

/// A new recording starts a clean session: nothing typed, no failure, no
/// stale error, and the injection setting read afresh.
pub proof fn law_recording_starts_clean(s: SessionView, direct_injection: bool)
    ensures
        ({
            let (s1, a1) = handle_spec(s, EventView::StateChanged("Recording"@));
            let (s2, a2) = started_spec(s1, direct_injection);
            &&& a1 == ActionView::LoadDirectInjection
            &&& a2 == ActionView::ShowState("Recording"@)
            &&& s2.stream_typed.len() == 0
            &&& !s2.typed_via_chunks
            &&& !s2.inject_failed
            &&& s2.last_error is None
            &&& s2.direct_injection == direct_injection
            &&& s2.prev_state == "Recording"@
        }),
{
}

} // verus!
