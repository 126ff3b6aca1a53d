use transcriber::json::Json;
use transcriber::streaming::{
    assemblyai_url, close_event, deepgram_url, parse_assemblyai_message, parse_deepgram_message,
    pcm_to_bytes, Framer, StreamEvent,
};

fn s(x: &str) -> Json {
    Json::Str(x.to_string())
}

fn obj(members: Vec<(&str, Json)>) -> Json {
    Json::Object(members.into_iter().map(|(k, v)| (k.to_string(), v)).collect())
}

fn final_text(ev: Option<StreamEvent>) -> Option<String> {
    match ev {
        Some(StreamEvent::Final(t)) => Some(t),
        _ => None,
    }
}

fn turn(transcript: &str, end_of_turn: bool, formatted: bool) -> Json {
    obj(vec![
        ("type", s("Turn")),
        ("transcript", s(transcript)),
        ("end_of_turn", Json::Bool(end_of_turn)),
        ("turn_is_formatted", Json::Bool(formatted)),
    ])
}

#[test]
fn assemblyai_takes_only_formatted_end_of_turn() {
    let partial = turn("hello wor", false, false);
    let raw_end = turn("hello world", true, false);
    let formatted = turn("Hello world.", true, true);
    assert!(parse_assemblyai_message(&partial).is_none());
    assert!(parse_assemblyai_message(&raw_end).is_none());
    assert_eq!(final_text(parse_assemblyai_message(&formatted)).as_deref(), Some("Hello world."));
    let termination = obj(vec![("type", s("Termination")), ("audio_duration_seconds", Json::Number(Some(3)))]);
    assert!(matches!(parse_assemblyai_message(&termination), Some(StreamEvent::Done)));
    assert!(parse_assemblyai_message(&obj(vec![("type", s("Begin")), ("id", s("x"))])).is_none());
}

#[test]
fn deepgram_takes_final_results() {
    let msg = obj(vec![
        ("type", s("Results")),
        ("is_final", Json::Bool(true)),
        ("channel", obj(vec![("alternatives", Json::Array(vec![obj(vec![("transcript", s("hi there"))])]))])),
    ]);
    assert_eq!(final_text(parse_deepgram_message(&msg)).as_deref(), Some("hi there"));
}

#[test]
fn deepgram_skips_interim_and_empty_results() {
    let interim = obj(vec![
        ("type", s("Results")),
        ("is_final", Json::Bool(false)),
        ("channel", obj(vec![("alternatives", Json::Array(vec![obj(vec![("transcript", s("hi"))])]))])),
    ]);
    assert!(parse_deepgram_message(&interim).is_none());
    let empty = obj(vec![
        ("type", s("Results")),
        ("is_final", Json::Bool(true)),
        ("channel", obj(vec![("alternatives", Json::Array(vec![obj(vec![("transcript", s(""))])]))])),
    ]);
    assert!(parse_deepgram_message(&empty).is_none());
    assert!(parse_deepgram_message(&obj(vec![("type", s("Metadata"))])).is_none());
}

#[test]
fn close_frames_end_or_fail_the_stream() {
    assert!(matches!(close_event(None), StreamEvent::Done));
    assert!(matches!(close_event(Some((1000, ""))), StreamEvent::Done));
    match close_event(Some((1008, "bad auth"))) {
        StreamEvent::Error(m) => assert!(m.contains("1008")),
        _ => panic!("an abnormal close is an error"),
    }
}

#[test]
fn streaming_urls_carry_the_audio_format() {
    let url = deepgram_url("nova-3", 16000, Some("en"));
    assert!(url.starts_with("wss://api.deepgram.com/v1/listen?"));
    assert!(url.contains("model=nova-3"));
    assert!(url.contains("sample_rate=16000"));
    assert!(url.contains("language=en"));
    let a = assemblyai_url(16000, None);
    assert!(a.contains("sample_rate=16000"));
}

#[test]
fn pcm_is_little_endian() {
    assert_eq!(pcm_to_bytes(&[1, -1, 256]), vec![1, 0, 0xff, 0xff, 0, 1]);
    assert!(pcm_to_bytes(&[]).is_empty());
}

#[test]
fn framing_keeps_every_sample_in_order() {
    let mut f = Framer::new(4, 8);
    let mut out: Vec<i16> = Vec::new();
    for chunk in [vec![1i16, 2], vec![3, 4, 5], (6..20).collect::<Vec<i16>>()] {
        for frame in f.push(&chunk) {
            assert!(frame.len() >= 4 && frame.len() <= 8);
            out.extend(frame);
        }
    }
    for frame in f.finish() {
        out.extend(frame);
    }
    let expected: Vec<i16> = (1..20).collect();
    assert_eq!(&out[..19], &expected[..]);
}
