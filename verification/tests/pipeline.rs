use transcriber::api::ApiError;
use transcriber::config::AppConfig;
use transcriber::pipeline::{
    append_phrase, describe_error, is_retryable, missing_key, needs_polish, polish_outcome,
    retry_delay_ms, should_transcribe, streaming_problem, uses_streaming, AutoStop, Failure,
    RelayAction, StreamRelay, VadTracker,
};
use transcriber::streaming::StreamEvent;

fn api(status: u16, retry_after_ms: Option<u64>) -> Failure {
    Failure::Api(ApiError { status, body: String::new(), body_json: None, retry_after_ms })
}

#[test]
fn silence_after_speech_stops_the_recording() {
    let mut vad = VadTracker::new();
    assert!(!vad.observe(false));
    assert_eq!(vad.silence_ticks, 0, "silence before speech does not count");
    assert!(vad.observe(true));
    assert!(!vad.observe(true));
    for _ in 0..44 {
        vad.observe(false);
    }
    assert_eq!(vad.auto_stop(true, 1000, 600), None);
    vad.observe(false);
    assert_eq!(vad.auto_stop(true, 1000, 600), Some(AutoStop::Silence));
    assert_eq!(vad.auto_stop(false, 1000, 600), None);
    assert_eq!(vad.auto_stop(false, 600_000, 600), Some(AutoStop::MaxLength));
    assert_eq!(vad.auto_stop(false, 600_000, 0), None);
}

#[test]
fn short_or_silent_recordings_are_not_sent() {
    assert!(!should_transcribe(4799, 16000, false, false));
    assert!(should_transcribe(4800, 16000, false, false));
    assert!(!should_transcribe(16000, 16000, true, false));
    assert!(should_transcribe(16000, 16000, true, true));
}

#[test]
fn streaming_needs_injection_and_a_key() {
    let mut cfg = AppConfig { streaming_enabled: true, ..AppConfig::default() };
    assert!(uses_streaming(&cfg));
    assert_eq!(
        streaming_problem(&cfg).as_deref(),
        Some("Deepgram: streaming requires direct injection to be enabled")
    );
    cfg.direct_injection = true;
    assert_eq!(streaming_problem(&cfg).as_deref(), Some("Deepgram: missing API key"));
    cfg.deepgram_api_key = "k".into();
    assert_eq!(streaming_problem(&cfg), None);
    cfg.postprocess_enabled = true;
    assert!(!uses_streaming(&cfg), "post-processing wins");
}

#[test]
fn groq_needs_a_key_custom_does_not() {
    assert!(missing_key(&AppConfig::default()));
    assert!(!missing_key(&AppConfig { provider: "custom".into(), ..AppConfig::default() }));
    assert!(!missing_key(&AppConfig { groq_api_key: "k".into(), ..AppConfig::default() }));
}

#[test]
fn retries_back_off_and_give_up() {
    assert_eq!(retry_delay_ms(1, &Failure::Timeout), Some(600));
    assert_eq!(retry_delay_ms(2, &Failure::Connect), Some(1200));
    assert_eq!(retry_delay_ms(3, &Failure::Timeout), None);
    assert_eq!(retry_delay_ms(1, &api(429, Some(5_000))), Some(5_000));
    assert_eq!(retry_delay_ms(1, &api(503, Some(90_000))), Some(30_000));
    assert_eq!(retry_delay_ms(1, &api(401, None)), None);
    assert_eq!(retry_delay_ms(1, &Failure::Other("x".into())), None);
    assert!(is_retryable(&Failure::Request("send".into())));
}

#[test]
fn failures_are_described_with_the_provider() {
    let cfg = AppConfig::default();
    assert_eq!(describe_error(&cfg, &Failure::Timeout), "Groq: request timed out");
    assert_eq!(describe_error(&cfg, &api(404, None)), "Groq: 404 not found");
    let custom = AppConfig { provider: "custom".into(), ..AppConfig::default() };
    assert_eq!(describe_error(&custom, &Failure::Connect), "Custom endpoint: could not connect");
    let old = AppConfig { provider: "cohere".into(), ..AppConfig::default() };
    assert_eq!(describe_error(&old, &Failure::Other("x".into())), "Cohere: x");
}

#[test]
fn polishing_keeps_the_raw_text_beside_it() {
    let cfg = AppConfig { postprocess_enabled: true, ..AppConfig::default() };
    assert!(needs_polish(&cfg, "raw"));
    assert!(!needs_polish(&cfg, ""));
    assert_eq!(polish_outcome("raw".into(), Ok("Raw.".into())), ("Raw.".to_string(), Some("raw".to_string())));
    assert_eq!(polish_outcome("raw".into(), Err("down".into())), ("raw".to_string(), None));
}

#[test]
fn phrases_accumulate_with_spaces() {
    let mut acc = String::new();
    append_phrase(&mut acc, "Hello");
    append_phrase(&mut acc, "world.");
    assert_eq!(acc, "Hello world.");
}

#[test]
fn the_relay_announces_cumulative_chunks() {
    let mut relay = StreamRelay::new();
    match relay.on_event(Some(StreamEvent::Final("Hello".into())), true, "Deepgram") {
        RelayAction::Chunk(t) => assert_eq!(t, "Hello"),
        other => panic!("unexpected {other:?}"),
    }
    match relay.on_event(Some(StreamEvent::Final("world".into())), true, "Deepgram") {
        RelayAction::Chunk(t) => assert_eq!(t, "Hello world"),
        other => panic!("unexpected {other:?}"),
    }
    assert!(matches!(relay.on_event(Some(StreamEvent::Final("late".into())), false, "Deepgram"), RelayAction::Stop));
    match relay.on_event(Some(StreamEvent::Done), true, "Deepgram") {
        RelayAction::Deliver(t) => assert_eq!(t, "Hello world"),
        other => panic!("unexpected {other:?}"),
    }
}

#[test]
fn the_relay_keeps_what_was_said_on_error() {
    let mut relay = StreamRelay::new();
    assert!(matches!(relay.on_event(None, true, "Deepgram"), RelayAction::Idle));
    match relay.on_event(Some(StreamEvent::Error("closed".into())), true, "Deepgram") {
        RelayAction::DeliverAndFail(said, msg) => {
            assert_eq!(said, None);
            assert_eq!(msg, "Deepgram: closed");
        }
        other => panic!("unexpected {other:?}"),
    }
    relay.on_event(Some(StreamEvent::Final("Hi".into())), true, "Deepgram");
    match relay.on_event(Some(StreamEvent::Error("closed".into())), true, "Deepgram") {
        RelayAction::DeliverAndFail(said, _) => assert_eq!(said.as_deref(), Some("Hi")),
        other => panic!("unexpected {other:?}"),
    }
}
