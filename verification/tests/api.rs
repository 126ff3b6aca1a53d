use transcriber::api::{
    completion_text, postprocess_precheck, stored_body, transcription_fields, transcription_text,
    truncate, ApiError,
};
use transcriber::json::Json;

fn s(x: &str) -> Json {
    Json::Str(x.to_string())
}

fn obj(members: Vec<(&str, Json)>) -> Json {
    Json::Object(members.into_iter().map(|(k, v)| (k.to_string(), v)).collect())
}

fn err(status: u16, body: &str, body_json: Option<Json>) -> ApiError {
    ApiError { status, body: body.into(), body_json, retry_after_ms: None }
}

#[test]
fn short_prefers_provider_message() {
    // {"error":{"message":"file too large","type":"invalid_request_error"}}
    let body = obj(vec![(
        "error",
        obj(vec![("message", s("file too large")), ("type", s("invalid_request_error"))]),
    )]);
    let e = err(
        413,
        r#"{"error":{"message":"file too large","type":"invalid_request_error"}}"#,
        Some(body),
    );
    assert_eq!(e.short(), "413 file too large");
    // "<html>" is not JSON.
    assert_eq!(err(502, "<html>", None).short(), "502 bad gateway");
}

#[test]
fn retryable_statuses() {
    assert!(err(429, "", None).is_retryable());
    assert!(err(503, "", None).is_retryable());
    assert!(!err(401, "", None).is_retryable());
    assert!(!err(413, "", None).is_retryable());
}

#[test]
fn truncate_is_char_safe() {
    assert_eq!(truncate("héllo", 2), "hé…");
    assert_eq!(truncate("hi", 5), "hi");
}

#[test]
fn short_uses_the_reason_phrase_of_each_status() {
    // The reason phrase comes from the HTTP crate; a body with no message
    // falls back to it, lowercased.
    assert_eq!(err(404, "", None).short(), "404 not found");
    assert_eq!(err(429, "{}", Some(obj(vec![]))).short(), "429 too many requests");
    // A message that is not a string is no message.
    let odd = obj(vec![("error", obj(vec![("message", Json::Number(Some(3)))]))]);
    assert_eq!(err(500, "", Some(odd)).short(), "500 internal server error");
}

#[test]
fn short_cuts_long_messages() {
    let long = "x".repeat(200);
    let body = obj(vec![("error", obj(vec![("message", s(&long))]))]);
    let short = err(400, "", Some(body)).short();
    assert_eq!(short, format!("400 {}…", "x".repeat(160)));
}

#[test]
fn server_errors_are_retryable_client_errors_not() {
    assert!(err(500, "", None).is_retryable());
    assert!(err(599, "", None).is_retryable());
    assert!(!err(600, "", None).is_retryable());
    assert!(!err(499, "", None).is_retryable());
}

#[test]
fn stored_body_is_trimmed_and_cut() {
    assert_eq!(stored_body("  oops \n"), "oops");
    let long = "é".repeat(600);
    assert_eq!(stored_body(&long), format!("{}…", "é".repeat(500)));
}

#[test]
fn transcription_fields_skip_empty_prompt() {
    let f = transcription_fields("whisper", Some("en"), Some(""));
    assert_eq!(
        f,
        vec![("model".to_string(), "whisper".to_string()), ("language".to_string(), "en".to_string())]
    );
    let g = transcription_fields("whisper", None, Some("AccuDose"));
    assert_eq!(
        g,
        vec![("model".to_string(), "whisper".to_string()), ("prompt".to_string(), "AccuDose".to_string())]
    );
}

#[test]
fn replies_are_read_and_trimmed() {
    assert_eq!(transcription_text(&obj(vec![("text", s("  hi there \n"))])).as_deref(), Some("hi there"));
    assert_eq!(transcription_text(&obj(vec![("txt", s("x"))])), None);
    let chat = obj(vec![(
        "choices",
        Json::Array(vec![obj(vec![("message", obj(vec![("content", s(" Fixed. "))]))])]),
    )]);
    assert_eq!(completion_text(&chat).as_deref(), Some("Fixed."));
    assert_eq!(completion_text(&obj(vec![("choices", Json::Array(vec![]))])), None);
}

#[test]
fn postprocess_needs_url_then_key() {
    assert_eq!(postprocess_precheck("", "k"), Err("post-processing endpoint URL is empty".to_string()));
    assert_eq!(postprocess_precheck("http://x", ""), Err("post-processing API key is empty".to_string()));
    assert_eq!(postprocess_precheck("http://x", "k"), Ok(()));
}
