use transcriber::overlay::{
    handle_state, shortcut_call, truncate, DaemonCall, Delivery, OverlayAction, OverlayEvent,
    OverlaySession, WindowUpdate,
};

fn state(s: &str) -> OverlayEvent {
    OverlayEvent::StateChanged(s.to_string())
}

fn start_typing_session() -> OverlaySession {
    let mut s = OverlaySession::new();
    assert!(matches!(s.handle(state("Recording")), OverlayAction::LoadDirectInjection));
    match s.recording_started(true) {
        OverlayAction::ShowState(st) => assert_eq!(st, "Recording"),
        other => panic!("unexpected {other:?}"),
    }
    s
}

#[test]
fn truncate_keeps_short_messages() {
    assert_eq!(truncate("  API key missing ", 80), "API key missing");
}

#[test]
fn truncate_counts_chars_not_bytes() {
    assert_eq!(truncate("ééééé", 3), "ééé…");
}

#[test]
fn truncate_trims_before_the_ellipsis() {
    assert_eq!(truncate("ab   cd", 4), "ab…");
}

#[test]
fn chunks_type_only_their_new_part() {
    let mut s = start_typing_session();
    match s.handle(OverlayEvent::TranscriptionChunk("Hello".into())) {
        OverlayAction::TypeChunk(d) => assert_eq!(d, "Hello"),
        other => panic!("unexpected {other:?}"),
    }
    s.chunk_typed(true);
    match s.handle(OverlayEvent::TranscriptionChunk("Hello world".into())) {
        OverlayAction::TypeChunk(d) => assert_eq!(d, " world"),
        other => panic!("unexpected {other:?}"),
    }
    s.chunk_typed(true);
    assert_eq!(s.stream_typed, "Hello world");
    // The same chunk again has nothing new.
    assert!(matches!(s.handle(OverlayEvent::TranscriptionChunk("Hello world".into())), OverlayAction::Nothing));
    // A chunk that does not extend the typed text is not typed.
    assert!(matches!(s.handle(OverlayEvent::TranscriptionChunk("Goodbye".into())), OverlayAction::Nothing));
}

#[test]
fn the_final_text_completes_the_chunks() {
    let mut s = start_typing_session();
    s.handle(OverlayEvent::TranscriptionChunk("Hello".into()));
    s.chunk_typed(true);
    s.handle(state("Streaming"));
    match s.handle(OverlayEvent::TranscriptionReady("Hello world.".into())) {
        OverlayAction::TypeFinal(rest) => assert_eq!(rest, " world."),
        other => panic!("unexpected {other:?}"),
    }
    assert!(matches!(s.final_typed(true), OverlayAction::Nothing));
    assert_eq!(s.output, Delivery::Typed);
    match s.handle(state("Done")) {
        OverlayAction::ShowMessage(m, ms) => {
            assert_eq!(m, "✓ Typed!");
            assert_eq!(ms, 800);
        }
        other => panic!("unexpected {other:?}"),
    }
}

#[test]
fn a_final_text_that_disagrees_is_copied() {
    let mut s = start_typing_session();
    s.handle(OverlayEvent::TranscriptionChunk("Hello".into()));
    s.chunk_typed(true);
    match s.handle(OverlayEvent::TranscriptionReady("Help!".into())) {
        OverlayAction::Copy(t) => assert_eq!(t, "Help!"),
        other => panic!("unexpected {other:?}"),
    }
    assert_eq!(s.output, Delivery::Mismatch);
    match s.handle(state("Done")) {
        OverlayAction::ShowMessage(m, _) => assert_eq!(m, "Copied (stream mismatch)"),
        other => panic!("unexpected {other:?}"),
    }
}

#[test]
fn a_failed_chunk_sends_the_final_text_to_the_clipboard() {
    let mut s = start_typing_session();
    s.handle(OverlayEvent::TranscriptionChunk("Hel".into()));
    s.chunk_typed(false);
    assert!(s.inject_failed);
    match s.handle(OverlayEvent::TranscriptionReady("Hello".into())) {
        OverlayAction::Copy(t) => assert_eq!(t, "Hello"),
        other => panic!("unexpected {other:?}"),
    }
}

#[test]
fn a_failed_final_typing_copies_the_whole_text() {
    let mut s = start_typing_session();
    s.handle(state("Transcribing"));
    match s.handle(OverlayEvent::TranscriptionReady("Whole text".into())) {
        OverlayAction::TypeFinal(t) => assert_eq!(t, "Whole text"),
        other => panic!("unexpected {other:?}"),
    }
    match s.final_typed(false) {
        OverlayAction::Copy(t) => assert_eq!(t, "Whole text"),
        other => panic!("unexpected {other:?}"),
    }
    assert_eq!(s.output, Delivery::Copied);
}

#[test]
fn clipboard_mode_copies() {
    let mut s = OverlaySession::new();
    s.handle(state("Recording"));
    s.recording_started(false);
    assert!(matches!(s.handle(OverlayEvent::TranscriptionChunk("hi".into())), OverlayAction::Nothing));
    s.handle(state("Transcribing"));
    match s.handle(OverlayEvent::TranscriptionReady("hi".into())) {
        OverlayAction::Copy(t) => assert_eq!(t, "hi"),
        other => panic!("unexpected {other:?}"),
    }
}

#[test]
fn stale_text_after_a_cancel_is_ignored() {
    let mut s = start_typing_session();
    s.handle(state("Idle"));
    assert!(matches!(s.handle(OverlayEvent::TranscriptionReady("late".into())), OverlayAction::Nothing));
    assert!(matches!(s.handle(OverlayEvent::TranscriptionChunk("late".into())), OverlayAction::Nothing));
}

#[test]
fn errors_show_the_reported_message_once() {
    let mut s = start_typing_session();
    s.handle(OverlayEvent::ErrorOccurred("  Groq: 401 invalid api key  ".into()));
    match s.handle(state("Error")) {
        OverlayAction::ShowMessage(m, ms) => {
            assert_eq!(m, "✗ Groq: 401 invalid api key");
            assert_eq!(ms, 3500);
        }
        other => panic!("unexpected {other:?}"),
    }
    match s.handle(state("Error")) {
        OverlayAction::ShowMessage(m, _) => assert_eq!(m, "✗ Error — check logs"),
        other => panic!("unexpected {other:?}"),
    }
}

#[test]
fn discard_messages_survive_the_following_idle() {
    let mut s = start_typing_session();
    match s.handle(OverlayEvent::SessionDiscarded("no-speech".into())) {
        OverlayAction::ShowMessage(m, ms) => {
            assert_eq!(m, "No speech detected");
            assert_eq!(ms, 1200);
        }
        other => panic!("unexpected {other:?}"),
    }
    assert!(matches!(s.handle(state("Idle")), OverlayAction::Nothing));
    // Another Idle (say, the daemon restarting) hides the overlay.
    s.handle(state("Recording"));
    s.recording_started(true);
    match s.handle(state("Idle")) {
        OverlayAction::ShowState(st) => assert_eq!(st, "Idle"),
        other => panic!("unexpected {other:?}"),
    }
    assert!(matches!(s.handle(OverlayEvent::SessionDiscarded("odd".into())), OverlayAction::Nothing));
}

#[test]
fn window_follows_daemon_states() {
    assert_eq!(handle_state("Recording"), WindowUpdate::ShowRecording);
    assert_eq!(
        handle_state("Transcribing"),
        WindowUpdate::ShowText { text: "Transcribing...".into(), fade_after_ms: None, reset_level: true }
    );
    assert_eq!(
        handle_state("Error"),
        WindowUpdate::ShowText { text: "✗ Error — check logs".into(), fade_after_ms: Some(2500), reset_level: false }
    );
    assert_eq!(handle_state("Idle"), WindowUpdate::FadeOut(0));
    assert_eq!(handle_state("PostProcessing"), WindowUpdate::Unchanged);
}

#[test]
fn the_toggle_shortcut_starts_stops_or_waits() {
    assert_eq!(shortcut_call("toggle-recording", "Idle"), DaemonCall::StartRecording);
    assert_eq!(shortcut_call("toggle-recording", "Done"), DaemonCall::StartRecording);
    assert_eq!(shortcut_call("toggle-recording", "Error"), DaemonCall::StartRecording);
    assert_eq!(shortcut_call("toggle-recording", "Recording"), DaemonCall::StopRecording);
    assert_eq!(shortcut_call("toggle-recording", "Transcribing"), DaemonCall::Nothing);
    assert_eq!(shortcut_call("cancel-recording", "Transcribing"), DaemonCall::Cancel);
    assert_eq!(shortcut_call("other", "Idle"), DaemonCall::Nothing);
}
