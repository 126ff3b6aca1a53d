//! Provider HTTP replies: error classification and the short error form
//! shown to users, request fields, and the text taken from a reply.

use vstd::prelude::*;

use crate::json::{element, field, str_field, str_value, Json};
use crate::text::{
    decimal, decimal_string, push_str, to_lowercase, to_string, trim, trim_seq, truncate_chars,
    truncate_seq, unicode_lowercase,
};

verus! {

/// How much of an error body is kept, in characters.
pub const BODY_LIMIT: usize = 500;

/// How much of the provider's message the short form keeps, in characters.
pub const SHORT_DETAIL_LIMIT: usize = 160;

/// The reason phrase the HTTP crate gives for a status code
/// (`StatusCode::canonical_reason`).
pub uninterp spec fn canonical_reason(status: u16) -> Option<Seq<char>>;

/// `reqwest::StatusCode::from_u16(status)` then `canonical_reason()`: the
/// standard reason phrase, named not stated; `None` outside 100..=999,
/// where the crate refuses the code.
#[verifier::external_body]
fn status_reason(status: u16) -> (r: Option<&'static str>)
    ensures
        match r {
            Some(s) => canonical_reason(status) == Some(s@),
            None => canonical_reason(status) is None,
        },
        !(100 <= status <= 999) ==> r is None,
{
    match reqwest::StatusCode::from_u16(status) {
        Ok(code) => code.canonical_reason(),
        Err(_) => None,
    }
}

/// A non-2xx response, with enough of the body kept to say *why*.
#[derive(Debug)]
pub struct ApiError {
    /// The HTTP status code.
    pub status: u16,
    /// Response body, trimmed and truncated to `BODY_LIMIT` characters.
    pub body: String,
    /// `body` read as JSON, when it is JSON.
    pub body_json: Option<Json>,
    /// Parsed `Retry-After` header (delta-seconds form only), in milliseconds.
    pub retry_after_ms: Option<u64>,
}

/// Whether a status is worth retrying: rate limiting or a server failure.
pub open spec fn is_retryable_status(status: u16) -> bool {
    status == 429 || (500 <= status < 600)
}

/// Rate limiting and every server failure are transient; success,
/// redirects and every other client error are not.
pub proof fn law_transient_statuses(status: u16)
    ensures
        status == 429 ==> is_retryable_status(status),
        500 <= status <= 599 ==> is_retryable_status(status),
        status < 500 && status != 429 ==> !is_retryable_status(status),
        status >= 600 ==> !is_retryable_status(status),
{
}

/// The provider's own message in an error body: OpenAI-style
/// `error.message`, else a string `error`, else a top-level `message`.
pub open spec fn provider_message(body: Option<Json>) -> Option<Seq<char>> {
    let nested = str_value(field(field(body, "error"@), "message"@));
    let flat = str_value(field(body, "error"@));
    let top = str_value(field(body, "message"@));
    if nested is Some {
        nested
    } else if flat is Some {
        flat
    } else {
        top
    }
}

/// The short form of an error with this status and parsed body.
pub open spec fn short_spec(status: u16, body: Option<Json>) -> Seq<char> {
    let detail = match provider_message(body) {
        Some(m) => m,
        None => match canonical_reason(status) {
            Some(r) => unicode_lowercase(r),
            None => unicode_lowercase("error"@),
        },
    };
    decimal(status as nat) + " "@ + truncate_seq(detail, SHORT_DETAIL_LIMIT as nat)
}

/// Keep at most `max_chars` characters (not bytes) of `s`, adding "…"
/// where the text was cut.
pub fn truncate(s: &str, max_chars: usize) -> (r: String)
    ensures
        r@ == truncate_seq(s@, max_chars as nat),
{
    truncate_chars(s, max_chars)
}

/// What an error keeps of a response body: trimmed, then truncated to
/// `BODY_LIMIT` characters.
pub fn stored_body(raw: &str) -> (r: String)
    ensures
        r@ == truncate_seq(trim_seq(raw@), BODY_LIMIT as nat),
{
    truncate(trim(raw), BODY_LIMIT)
}

fn provider_message_exec(body: &Option<Json>) -> (r: Option<&str>)
    ensures
        match r {
            Some(s) => provider_message(*body) == Some(s@),
            None => provider_message(*body) is None,
        },
{
    match body {
        Some(j) => {
            let nested = match j.get("error") {
                Some(e) => str_field(e, "message"),
                None => None,
            };
            if nested.is_some() {
                return nested;
            }
            let flat = str_field(j, "error");
            if flat.is_some() {
                return flat;
            }
            str_field(j, "message")
        },
        None => None,
    }
}

impl ApiError {
    /// Worth retrying: rate limits and server-side failures. Everything else
    /// (bad key, bad model, file too large) will fail identically next time.
    pub fn is_retryable(&self) -> (r: bool)
        ensures
            r == is_retryable_status(self.status),
    {
        self.status == 429 || (500 <= self.status && self.status < 600)
    }

    /// Short form for the UI, e.g. "413 file too large": the status code and
    /// the provider's own message, or the lowercased reason phrase when the
    /// body holds none, cut to `SHORT_DETAIL_LIMIT` characters.
    pub fn short(&self) -> (r: String)
        ensures
            r@ == short_spec(self.status, self.body_json),
    {
        let detail: String = match provider_message_exec(&self.body_json) {
            Some(m) => to_string(m),
            None => match status_reason(self.status) {
                Some(reason) => to_lowercase(reason),
                None => to_lowercase("error"),
            },
        };
        let mut r = decimal_string(self.status as u64);
        push_str(&mut r, " ");
        let cut = truncate(detail.as_str(), SHORT_DETAIL_LIMIT);
        push_str(&mut r, cut.as_str());
        r
    }
}

/// The multipart text fields of a transcription request: the model, then
/// the language if there is one, then the prompt if it is not empty.
pub open spec fn transcription_fields_spec(
    model: Seq<char>,
    language: Option<Seq<char>>,
    prompt: Option<Seq<char>>,
) -> Seq<(Seq<char>, Seq<char>)> {
    let base = seq![("model"@, model)];
    let with_lang = match language {
        Some(l) => base.push(("language"@, l)),
        None => base,
    };
    match prompt {
        Some(p) => if p.len() > 0 {
            with_lang.push(("prompt"@, p))
        } else {
            with_lang
        },
        None => with_lang,
    }
}

/// The views of a list of name/value pairs.
pub open spec fn pair_views(v: Seq<(String, String)>) -> Seq<(Seq<char>, Seq<char>)> {
    v.map_values(|p: (String, String)| (p.0@, p.1@))
}

/// The text fields sent with a transcription upload (besides the file).
pub fn transcription_fields(model: &str, language: Option<&str>, prompt: Option<&str>) -> (r: Vec<
    (String, String),
>)
    ensures
        pair_views(r@) == transcription_fields_spec(
            model@,
            match language {
                Some(l) => Some(l@),
                None => None,
            },
            match prompt {
                Some(p) => Some(p@),
                None => None,
            },
        ),
{
    let mut r: Vec<(String, String)> = Vec::new();
    r.push((to_string("model"), to_string(model)));
    if let Some(l) = language {
        r.push((to_string("language"), to_string(l)));
    }
    if let Some(p) = prompt {
        if p.unicode_len() > 0 {
            r.push((to_string("prompt"), to_string(p)));
        }
    }
    proof {
        assert(pair_views(r@) =~= transcription_fields_spec(
            model@,
            match language {
                Some(l) => Some(l@),
                None => None,
            },
            match prompt {
                Some(p) => Some(p@),
                None => None,
            },
        ));
    }
    r
}

/// Each setting reaches the request on its own: the model always leads; a
/// language is sent whenever one is set and a non-empty prompt whenever
/// there is one, whatever the other; and neither field appears without its
/// setting.
pub proof fn law_transcription_fields_carry_each_setting(
    model: Seq<char>,
    language: Option<Seq<char>>,
    prompt: Option<Seq<char>>,
)
    ensures
        ({
            let f = transcription_fields_spec(model, language, prompt);
            &&& f.len() > 0
            &&& f[0] == ("model"@, model)
            &&& (match language {
                Some(l) => f.contains(("language"@, l)),
                None => true,
            })
            &&& (match prompt {
                Some(p) => p.len() > 0 ==> f.contains(("prompt"@, p)),
                None => true,
            })
            &&& (language is None ==> forall|i: int| 0 <= i < f.len() ==> (#[trigger] f[i]).0 != "language"@)
            &&& ((prompt is None || prompt == Some(Seq::<char>::empty())) ==> forall|i: int|
                0 <= i < f.len() ==> (#[trigger] f[i]).0 != "prompt"@)
            &&& f.len() == 1 + (if language is Some { 1int } else { 0int }) + (match prompt {
                Some(p) => if p.len() > 0 { 1int } else { 0int },
                None => 0int,
            })
        }),
{
    reveal_strlit("model");
    reveal_strlit("language");
    reveal_strlit("prompt");
    assert("model"@.len() != "language"@.len());
    assert("prompt"@.len() != "language"@.len());
    assert("model"@.len() != "prompt"@.len());
    let f = transcription_fields_spec(model, language, prompt);
    let base = seq![("model"@, model)];
    let with_lang = match language {
        Some(l) => base.push(("language"@, l)),
        None => base,
    };
    if let Some(l) = language {
        assert(with_lang[1] == ("language"@, l));
        assert(f[1] == ("language"@, l));
    }
    if let Some(p) = prompt {
        if p.len() > 0 {
            assert(f[f.len() - 1] == ("prompt"@, p));
        }
    }
}

/// The transcript in a transcription reply: its `text` member, trimmed.
pub open spec fn transcription_text_spec(reply: Json) -> Option<Seq<char>> {
    match str_value(field(Some(reply), "text"@)) {
        Some(t) => Some(trim_seq(t)),
        None => None,
    }
}

/// Reads the transcript out of an `/audio/transcriptions` reply.
pub fn transcription_text(reply: &Json) -> (r: Option<String>)
    ensures
        match r {
            Some(t) => transcription_text_spec(*reply) == Some(t@),
            None => transcription_text_spec(*reply) is None,
        },
{
    match str_field(reply, "text") {
        Some(t) => Some(to_string(trim(t))),
        None => None,
    }
}

/// The reply in a chat-completions answer: `choices[0].message.content`,
/// trimmed.
pub open spec fn completion_text_spec(reply: Json) -> Option<Seq<char>> {
    match str_value(field(field(element(field(Some(reply), "choices"@), 0), "message"@), "content"@)) {
        Some(t) => Some(trim_seq(t)),
        None => None,
    }
}

/// Reads the assistant's reply out of a chat-completions answer.
pub fn completion_text(reply: &Json) -> (r: Option<String>)
    ensures
        match r {
            Some(t) => completion_text_spec(*reply) == Some(t@),
            None => completion_text_spec(*reply) is None,
        },
{
    let choices = match reply.get("choices") {
        Some(c) => c,
        None => return None,
    };
    let first = match choices.at(0) {
        Some(f) => f,
        None => return None,
    };
    let message = match first.get("message") {
        Some(m) => m,
        None => return None,
    };
    match str_field(message, "content") {
        Some(t) => Some(to_string(trim(t))),
        None => None,
    }
}

/// Why a post-processing request cannot be sent, if it cannot: an empty
/// endpoint URL, then an empty API key.
pub fn postprocess_precheck(api_url: &str, api_key: &str) -> (r: Result<(), String>)
    ensures
        api_url@.len() == 0 ==> (r matches Err(m) && m@ == "post-processing endpoint URL is empty"@),
        api_url@.len() > 0 && api_key@.len() == 0 ==> (r matches Err(m) && m@
            == "post-processing API key is empty"@),
        api_url@.len() > 0 && api_key@.len() > 0 ==> r is Ok,
{
    if api_url.unicode_len() == 0 {
        return Err(to_string("post-processing endpoint URL is empty"));
    }
    if api_key.unicode_len() == 0 {
        return Err(to_string("post-processing API key is empty"));
    }
    Ok(())
}

} // verus!
