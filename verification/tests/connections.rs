use transcriber::config::AppConfig;
use transcriber::connections::{
    call_failure, connection_outcomes, model_listed, models_url, postprocess_label,
    postprocess_problem, provider_label, CallFailure,
};
use transcriber::json::Json;

fn s(x: &str) -> Json {
    Json::Str(x.to_string())
}

fn obj(members: Vec<(&str, Json)>) -> Json {
    Json::Object(members.into_iter().map(|(k, v)| (k.to_string(), v)).collect())
}

fn model_list(ids: &[&str]) -> Json {
    obj(vec![("data", Json::Array(ids.iter().map(|id| obj(vec![("id", s(id))])).collect()))])
}

#[test]
fn models_url_replaces_operation_path() {
    assert_eq!(
        models_url("https://api.groq.com/openai/v1/chat/completions", "/chat/completions"),
        "https://api.groq.com/openai/v1/models"
    );
    assert_eq!(
        models_url(
            "https://generativelanguage.googleapis.com/v1beta/openai/chat/completions",
            "/chat/completions"
        ),
        "https://generativelanguage.googleapis.com/v1beta/openai/models"
    );
    assert_eq!(
        models_url("http://localhost:8000/v1/audio/transcriptions/", "/audio/transcriptions"),
        "http://localhost:8000/v1/models"
    );
    assert_eq!(models_url("http://localhost:8000/v1", "/audio/transcriptions"), "http://localhost:8000/v1/models");
}

#[test]
fn model_listed_accepts_gemini_prefix_either_way() {
    let gemini = model_list(&["models/gemini-3-flash-preview"]);
    assert!(model_listed(&gemini, "gemini-3-flash-preview"));
    assert!(model_listed(&gemini, "models/gemini-3-flash-preview"));
    assert!(!model_listed(&gemini, "gemini-2.5-pro"));

    let groq = model_list(&["whisper-large-v3-turbo", "llama-3.3-70b-versatile"]);
    assert!(model_listed(&groq, "whisper-large-v3-turbo"));
    assert!(model_listed(&groq, "models/whisper-large-v3-turbo"));
    assert!(!model_listed(&groq, "whisper-large-v3"));
    assert!(!model_listed(&groq, ""));
    assert!(!model_listed(&Json::Null, "whisper-large-v3-turbo"));
}

#[test]
fn labels_name_the_providers() {
    let cfg = AppConfig::default();
    assert_eq!(provider_label(&cfg), "Groq");
    assert_eq!(postprocess_label(&cfg), "Groq");
    let custom = AppConfig {
        provider: "custom".into(),
        postprocess_provider: "gemini".into(),
        ..AppConfig::default()
    };
    assert_eq!(provider_label(&custom), "Custom endpoint");
    assert_eq!(postprocess_label(&custom), "Gemini");
}

#[test]
fn postprocess_problem_names_what_is_missing() {
    let cfg = AppConfig::default();
    assert_eq!(postprocess_problem(&cfg).as_deref(), Some("no Groq API key configured"));
    let custom = AppConfig { postprocess_provider: "custom".into(), ..AppConfig::default() };
    assert_eq!(postprocess_problem(&custom).as_deref(), Some("no Custom endpoint URL configured"));
    let ready = AppConfig { postprocess_groq_api_key: "k".into(), ..AppConfig::default() };
    assert_eq!(postprocess_problem(&ready), None);
}

#[test]
fn test_reply_rows_fill_in_missing_details() {
    let reply = Json::Array(vec![
        obj(vec![("name", s("Transcription (Groq)")), ("ok", Json::Bool(true)), ("detail", s(""))]),
        obj(vec![("name", s("Streaming (Deepgram)")), ("ok", Json::Bool(false))]),
        obj(vec![("name", s("Post")), ("ok", Json::Bool(true)), ("detail", s("OK — llama"))]),
    ]);
    let rows = connection_outcomes(Some(&reply));
    assert_eq!(rows.len(), 3);
    assert_eq!((rows[0].name.as_str(), rows[0].ok, rows[0].detail.as_str()), ("Transcription (Groq)", true, "Connected"));
    assert_eq!((rows[1].name.as_str(), rows[1].ok, rows[1].detail.as_str()), ("Streaming (Deepgram)", false, "Failed"));
    assert_eq!(rows[2].detail, "OK — llama");
}

#[test]
fn empty_and_unreadable_test_replies() {
    let none = connection_outcomes(Some(&Json::Array(vec![])));
    assert_eq!(none.len(), 1);
    assert_eq!(none[0].name, "Nothing to test");
    assert!(none[0].ok);
    let bad = connection_outcomes(None);
    assert_eq!(bad[0].detail, "The daemon's answer wasn't valid JSON");
    assert!(!bad[0].ok);
    let not_array = connection_outcomes(Some(&obj(vec![])));
    assert_eq!(not_array[0].name, "Unexpected reply");
}

#[test]
fn failed_test_calls_explain_themselves() {
    assert_eq!(call_failure(CallFailure::Unavailable).name, "Daemon unavailable");
    assert_eq!(call_failure(CallFailure::TimedOut).detail, "The daemon didn't answer in time");
    let other = call_failure(CallFailure::Other("boom".into()));
    assert_eq!((other.name.as_str(), other.detail.as_str(), other.ok), ("Test failed", "boom", false));
    assert_eq!(
        call_failure(CallFailure::UnknownMethod).detail,
        "This version of the daemon can't test connections — update it"
    );
}
