use transcriber::daemon::{DaemonCore, DaemonState};

type Core = DaemonCore<&'static str, Vec<i16>, &'static str>;

#[test]
fn state_names_match_the_bus_protocol() {
    assert_eq!(DaemonState::Idle.as_str(), "Idle");
    assert_eq!(DaemonState::PostProcessing.as_str(), "PostProcessing");
    assert_eq!(DaemonState::Error("x".into()).as_str(), "Error");
    assert!(DaemonState::Streaming.is_busy());
    assert!(!DaemonState::Done.is_busy());
    assert!(DaemonState::Done.is_terminal());
    assert!(!DaemonState::Recording.is_terminal());
}

#[test]
fn a_second_start_is_refused_while_busy() {
    let mut core: Core = DaemonCore::new();
    let (g, _) = core.claim_start(false).unwrap();
    assert_eq!(g, 1);
    assert_eq!(core.claim_start(false).err().as_deref(), Some("already recording or transcribing"));
    assert_eq!(core.state_name(), "Recording");
}

#[test]
fn capture_attaches_only_to_the_live_session() {
    let mut core: Core = DaemonCore::new();
    let (g, _) = core.claim_start(false).unwrap();
    assert!(core.attach_capture(g, "stop", vec![1, 2]).is_none());
    assert_eq!(core.stop_tx, Some("stop"));
    // A stale generation gets its handles back.
    let back = core.attach_capture(g + 1, "other", vec![]);
    assert_eq!(back, Some(("other", vec![])));
}

#[test]
fn stop_hands_over_the_recording_once() {
    let mut core: Core = DaemonCore::new();
    let (g, _) = core.claim_start(false).unwrap();
    core.attach_capture(g, "stop", vec![7]);
    core.mark_speech(g);
    let stopped = core.stop(None).expect("recording stops");
    assert_eq!(stopped.generation, g);
    assert!(stopped.speech_detected);
    assert_eq!(stopped.released.buffer, Some(vec![7]));
    assert!(!stopped.released.abort);
    assert_eq!(core.state_name(), "Transcribing");
    // The silence detector's stop for the same session comes too late.
    assert!(core.stop(Some(g)).is_none());
}

#[test]
fn streaming_sessions_stop_into_streaming() {
    let mut core: Core = DaemonCore::new();
    let (g, _) = core.claim_start(true).unwrap();
    assert!(core.attach_stream(g, "ws").is_none());
    let stopped = core.stop(Some(g)).unwrap();
    assert!(stopped.streaming);
    assert_eq!(stopped.released.task, Some("ws"));
    assert_eq!(core.state_name(), "Streaming");
}

#[test]
fn cancel_invalidates_work_in_flight() {
    let mut core: Core = DaemonCore::new();
    let (g, _) = core.claim_start(false).unwrap();
    core.attach_capture(g, "stop", vec![]);
    let released = core.cancel();
    assert!(released.abort);
    assert_eq!(released.stop, Some("stop"));
    assert_eq!(core.state_name(), "Idle");
    assert!(!core.is_current(g));
    // The cancelled pipeline can no longer change the state.
    assert!(core.transition(g, DaemonState::Done).is_none());
    assert_eq!(core.state_name(), "Idle");
    // A new session gets a fresh generation.
    let (g2, _) = core.claim_start(false).unwrap();
    assert!(g2 > g);
}

#[test]
fn terminal_states_release_the_capture() {
    let mut core: Core = DaemonCore::new();
    let (g, _) = core.claim_start(true).unwrap();
    core.attach_capture(g, "stop", vec![]);
    core.attach_stream(g, "ws");
    let rel = core.transition(g, DaemonState::Error("boom".into())).unwrap();
    assert_eq!((rel.stop, rel.task, rel.abort), (Some("stop"), Some("ws"), true));
    assert!(core.stream_task.is_none());
    assert!(core.is_current(g));
    assert!(!core.is_recording(g));
}
