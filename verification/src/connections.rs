//! Connection tests for the settings app: labels, preconditions, the
//! `/models` URL of an endpoint and the model-list check.

use vstd::prelude::*;

use crate::api::ApiError;
use crate::config::{postprocess_pick, AppConfig};
use crate::json::{array_items, bool_value, field, str_field, str_value, Json};
use crate::config::or_empty;
use crate::pipeline::{failure_detail, Failure};
use crate::text::{
    push_str, str_eq, strip_prefix, strip_suffix, to_string, trim, trim_end_char,
    trim_end_char_seq, trim_seq,
};

verus! {

/// The transcription provider's name as shown to users.
pub open spec fn provider_label_spec(cfg: AppConfig) -> Seq<char> {
    if cfg.provider@ == "groq"@ {
        "Groq"@
    } else {
        "Custom endpoint"@
    }
}

/// The transcription provider's name as shown to users.
pub fn provider_label(cfg: &AppConfig) -> (r: &'static str)
    ensures
        r@ == provider_label_spec(*cfg),
{
    if str_eq(cfg.provider.as_str(), "groq") {
        "Groq"
    } else {
        "Custom endpoint"
    }
}


/// The post-processing provider's name as shown to users.
pub open spec fn postprocess_label_spec(cfg: AppConfig) -> Seq<char> {
    postprocess_pick(cfg, "Groq"@, "Gemini"@, "Custom endpoint"@)
}

/// The post-processing provider's name as shown to users.
pub fn postprocess_label(cfg: &AppConfig) -> (r: &'static str)
    ensures
        r@ == postprocess_label_spec(*cfg),
{
    if str_eq(cfg.postprocess_provider.as_str(), "groq") {
        "Groq"
    } else if str_eq(cfg.postprocess_provider.as_str(), "gemini") {
        "Gemini"
    } else {
        "Custom endpoint"
    }
}

/// Why post-processing cannot run with `cfg`: no URL, then no key.
pub open spec fn postprocess_problem_spec(cfg: AppConfig) -> Option<Seq<char>> {
    let label = postprocess_label_spec(cfg);
    let url = postprocess_pick(
        cfg,
        "https://api.groq.com/openai/v1/chat/completions"@,
        "https://generativelanguage.googleapis.com/v1beta/openai/chat/completions"@,
        cfg.postprocess_custom_api_url@,
    );
    let key = postprocess_pick(
        cfg,
        cfg.postprocess_groq_api_key@,
        cfg.postprocess_gemini_api_key@,
        cfg.postprocess_custom_api_key@,
    );
    if url.len() == 0 {
        Some("no "@ + label + " URL configured"@)
    } else if key.len() == 0 {
        Some("no "@ + label + " API key configured"@)
    } else {
        None
    }
}

/// Why post-processing can't run with this config, if it can't. Independent
/// of `postprocess_enabled`: re-polishing a history entry is allowed with
/// the live pass switched off, as long as a provider is set up.
pub fn postprocess_problem(cfg: &AppConfig) -> (r: Option<String>)
    ensures
        match r {
            Some(m) => postprocess_problem_spec(*cfg) == Some(m@),
            None => postprocess_problem_spec(*cfg) is None,
        },
{
    let label = postprocess_label(cfg);
    if cfg.active_postprocess_url().unicode_len() == 0 {
        let mut m = to_string("no ");
        push_str(&mut m, label);
        push_str(&mut m, " URL configured");
        Some(m)
    } else if cfg.active_postprocess_key().unicode_len() == 0 {
        let mut m = to_string("no ");
        push_str(&mut m, label);
        push_str(&mut m, " API key configured");
        Some(m)
    } else {
        None
    }
}

/// One provider's test result.
#[derive(Debug)]
pub struct Check {
    pub name: String,
    pub ok: bool,
    pub detail: String,
}

impl Check {
    /// A passed check carries its detail in `Ok`, a failed one in `Err`.
    pub fn new(name: String, result: Result<String, String>) -> (r: Self)
        ensures
            r.name == name,
            result matches Ok(d) ==> (r.ok && r.detail == d),
            result matches Err(d) ==> (!r.ok && r.detail == d),
    {
        match result {
            Ok(detail) => Check { name, ok: true, detail },
            Err(detail) => Check { name, ok: false, detail },
        }
    }
}

/// "OK", naming the model when there is one.
pub open spec fn ok_detail_spec(model: Seq<char>) -> Seq<char> {
    if model.len() == 0 {
        "OK"@
    } else {
        "OK \u{2014} "@ + model
    }
}

fn ok_detail(model: &str) -> (r: String)
    ensures
        r@ == ok_detail_spec(model@),
{
    if model.unicode_len() == 0 {
        to_string("OK")
    } else {
        let mut r = to_string("OK \u{2014} ");
        push_str(&mut r, model);
        r
    }
}

/// The OpenAI-style `/models` URL of an endpoint: the endpoint trimmed,
/// without trailing slashes, without the operation path `suffix` when it
/// ends in it (and the slashes before that), then "/models".
pub open spec fn models_url_spec(endpoint: Seq<char>, suffix: Seq<char>) -> Seq<char> {
    let base = trim_end_char_seq(trim_seq(endpoint), '/');
    let base = if suffix.is_suffix_of(base) {
        trim_end_char_seq(base.take(base.len() - suffix.len()), '/')
    } else {
        trim_end_char_seq(base, '/')
    };
    base + "/models"@
}

/// The OpenAI-style `/models` URL for an endpoint URL. A URL that doesn't
/// end in `suffix` is treated as already being the API base.
pub fn models_url(endpoint: &str, suffix: &str) -> (r: String)
    ensures
        r@ == models_url_spec(endpoint@, suffix@),
{
    let base = trim_end_char(trim(endpoint), '/');
    let stripped = match strip_suffix(base, suffix) {
        Some(b) => b,
        None => base,
    };
    let base = trim_end_char(stripped, '/');
    let mut r = to_string(base);
    push_str(&mut r, "/models");
    r
}

/// A model name without a leading "models/" (Gemini lists ids that way).
pub open spec fn bare_model(s: Seq<char>) -> Seq<char> {
    if "models/"@.is_prefix_of(s) {
        s.skip(7)
    } else {
        s
    }
}

fn bare<'a>(s: &'a str) -> (r: &'a str)
    ensures
        r@ == bare_model(s@),
{
    proof {
        reveal_strlit("models/");
    }
    match strip_prefix(s, "models/") {
        Some(rest) => rest,
        None => s,
    }
}

/// Whether `model` appears in an OpenAI-style `{"data":[{"id":…}]}` list,
/// either form of a "models/" prefix matching either form.
pub open spec fn model_listed_spec(list: Json, model: Seq<char>) -> bool {
    let want = bare_model(trim_seq(model));
    &&& want.len() > 0
    &&& array_items(field(Some(list), "data"@)) matches Some(items)
    &&& exists|i: int|
        0 <= i < items.len() && ((#[trigger] str_value(field(Some(items[i]), "id"@))) matches Some(
            id,
        ) && bare_model(id) == want)
}

/// Whether `model` appears in a `/models` listing.
pub fn model_listed(list: &Json, model: &str) -> (r: bool)
    ensures
        r == model_listed_spec(*list, model@),
{
    let want = bare(trim(model));
    if want.unicode_len() == 0 {
        return false;
    }
    let data = match list.get("data") {
        Some(d) => d,
        None => return false,
    };
    let items = match data.as_array() {
        Some(items) => items,
        None => return false,
    };
    let mut i: usize = 0;
    while i < items.len()
        invariant
            i <= items@.len(),
            want@ == bare_model(trim_seq(model@)),
            want@.len() > 0,
            array_items(field(Some(*list), "data"@)) == Some(items@),
            forall|k: int|
                0 <= k < i ==> !((#[trigger] str_value(field(Some(items@[k]), "id"@))) matches Some(
                    id,
                ) && bare_model(id) == want@),
        decreases items@.len() - i,
    {
        if let Some(id) = str_field(&items[i], "id") {
            if str_eq(bare(id), want) {
                assert(str_value(field(Some(items@[i as int]), "id"@)) == Some(id@));
                assert(bare_model(id@) == want@);
                return true;
            }
        }
        i = i + 1;
    }
    false
}

/// The check passes when the model is listed.
pub fn require_model(list: &Json, model: &str) -> (r: Result<String, String>)
    ensures
        model_listed_spec(*list, model@) ==> (r matches Ok(d) && d@ == ok_detail_spec(model@)),
        !model_listed_spec(*list, model@) ==> (r matches Err(d) && d@ == "model "@ + model@
            + " not found"@),
{
    if model_listed(list, model) {
        Ok(ok_detail(model))
    } else {
        let mut m = to_string("model ");
        push_str(&mut m, model);
        push_str(&mut m, " not found");
        Err(m)
    }
}

// ── Probe plans ──────────────────────────────────────────────────────────────

/// How a probe authenticates.
#[derive(Debug)]
pub enum Auth {
    /// No `Authorization` header.
    Anonymous,
    /// `Authorization: Bearer <key>`.
    Bearer(String),
    /// Deepgram's scheme: `Authorization: Token <key>`.
    Token(String),
}

/// What a probe's answer must show.
#[derive(Debug)]
pub enum Expect {
    /// The model list must contain this model.
    Model(String),
    /// A user-supplied OpenAI-compatible server: any success proves URL and
    /// key, and a 404 still proves the server is up. Names the model.
    Reachable(String),
    /// Any success will do; reported with this detail.
    Success(String),
}

/// One authenticated GET that tests a provider.
#[derive(Debug)]
pub struct Probe {
    pub url: String,
    pub auth: Auth,
    pub expect: Expect,
}

/// A test to run: its row title and either a probe or why it fails outright.
#[derive(Debug)]
pub struct PlannedCheck {
    pub name: String,
    pub plan: Result<Probe, String>,
}

/// The Groq model-list URL.
pub const GROQ_MODELS_URL: &'static str = "https://api.groq.com/openai/v1/models";

/// The Deepgram project-list URL.
pub const DEEPGRAM_PROJECTS_URL: &'static str = "https://api.deepgram.com/v1/projects";

/// The abstract value of an `Auth`.
pub enum AuthView {
    Anonymous,
    Bearer(Seq<char>),
    Token(Seq<char>),
}

/// The abstract value of an `Expect`.
pub enum ExpectView {
    Model(Seq<char>),
    Reachable(Seq<char>),
    Success(Seq<char>),
}

/// The abstract value of an `Auth`.
pub open spec fn auth_view(a: Auth) -> AuthView {
    match a {
        Auth::Anonymous => AuthView::Anonymous,
        Auth::Bearer(k) => AuthView::Bearer(k@),
        Auth::Token(k) => AuthView::Token(k@),
    }
}

/// A probe plan as plain values: the URL, authentication and expectation,
/// or why the check fails outright.
pub open spec fn plan_view(r: Result<Probe, String>) -> Result<(Seq<char>, AuthView, ExpectView), Seq<char>> {
    match r {
        Ok(p) => Ok((
            p.url@,
            auth_view(p.auth),
            match p.expect {
                Expect::Model(m) => ExpectView::Model(m@),
                Expect::Reachable(m) => ExpectView::Reachable(m@),
                Expect::Success(d) => ExpectView::Success(d@),
            },
        )),
        Err(m) => Err(m@),
    }
}

/// Bearer authentication with a key, none without one.
pub open spec fn bearer_unless_empty_spec(key: Seq<char>) -> AuthView {
    if key.len() == 0 {
        AuthView::Anonymous
    } else {
        AuthView::Bearer(key)
    }
}

/// How the transcription provider is tested.
pub open spec fn transcription_plan(cfg: AppConfig) -> Result<(Seq<char>, AuthView, ExpectView), Seq<char>> {
    if cfg.provider@ == "groq"@ {
        if cfg.groq_api_key@.len() == 0 {
            Err("no Groq API key configured"@)
        } else {
            Ok((GROQ_MODELS_URL@, AuthView::Bearer(cfg.groq_api_key@), ExpectView::Model(cfg.groq_model@)))
        }
    } else if cfg.custom_api_url@.len() == 0 {
        Err("no endpoint URL configured"@)
    } else {
        Ok((
            models_url_spec(cfg.custom_api_url@, "/audio/transcriptions"@),
            bearer_unless_empty_spec(cfg.custom_api_key@),
            ExpectView::Reachable(cfg.custom_model@),
        ))
    }
}

/// How Deepgram is tested.
pub open spec fn deepgram_plan(cfg: AppConfig) -> Result<(Seq<char>, AuthView, ExpectView), Seq<char>> {
    if cfg.deepgram_api_key@.len() == 0 {
        Err("no Deepgram API key configured"@)
    } else {
        Ok((
            DEEPGRAM_PROJECTS_URL@,
            AuthView::Token(cfg.deepgram_api_key@),
            ExpectView::Success(ok_detail_spec(cfg.deepgram_model@)),
        ))
    }
}

/// How the post-processing provider is tested.
pub open spec fn postprocess_plan(cfg: AppConfig) -> Result<(Seq<char>, AuthView, ExpectView), Seq<char>> {
    match postprocess_problem_spec(cfg) {
        Some(m) => Err(m),
        None => {
            let url = models_url_spec(
                postprocess_pick(
                    cfg,
                    "https://api.groq.com/openai/v1/chat/completions"@,
                    "https://generativelanguage.googleapis.com/v1beta/openai/chat/completions"@,
                    cfg.postprocess_custom_api_url@,
                ),
                "/chat/completions"@,
            );
            let key = postprocess_pick(
                cfg,
                cfg.postprocess_groq_api_key@,
                cfg.postprocess_gemini_api_key@,
                cfg.postprocess_custom_api_key@,
            );
            let model = postprocess_pick(
                cfg,
                cfg.postprocess_groq_model@,
                cfg.postprocess_gemini_model@,
                cfg.postprocess_custom_model@,
            );
            if cfg.postprocess_provider@ == "groq"@ || cfg.postprocess_provider@ == "gemini"@ {
                Ok((url, AuthView::Bearer(key), ExpectView::Model(model)))
            } else {
                Ok((url, bearer_unless_empty_spec(key), ExpectView::Reachable(model)))
            }
        },
    }
}

fn bearer_unless_empty(key: &str) -> (r: Auth)
    ensures
        auth_view(r) == bearer_unless_empty_spec(key@),
{
    if key.unicode_len() == 0 {
        Auth::Anonymous
    } else {
        Auth::Bearer(to_string(key))
    }
}

/// How the transcription provider is tested: Groq needs its key and must
/// list the model; a custom endpoint needs a URL, may be keyless, and is
/// probed at its `/models` URL.
pub fn transcription_probe(cfg: &AppConfig) -> (r: Result<Probe, String>)
    ensures
        plan_view(r) == transcription_plan(*cfg),
{
    if str_eq(cfg.provider.as_str(), "groq") {
        if cfg.groq_api_key.as_str().unicode_len() == 0 {
            return Err(to_string("no Groq API key configured"));
        }
        return Ok(
            Probe {
                url: to_string(GROQ_MODELS_URL),
                auth: Auth::Bearer(to_string(cfg.groq_api_key.as_str())),
                expect: Expect::Model(to_string(cfg.groq_model.as_str())),
            },
        );
    }
    if cfg.custom_api_url.as_str().unicode_len() == 0 {
        return Err(to_string("no endpoint URL configured"));
    }
    Ok(
        Probe {
            url: models_url(cfg.custom_api_url.as_str(), "/audio/transcriptions"),
            auth: bearer_unless_empty(cfg.custom_api_key.as_str()),
            expect: Expect::Reachable(to_string(cfg.custom_model.as_str())),
        },
    )
}

/// How Deepgram is tested: its key lists the projects.
pub fn deepgram_probe(cfg: &AppConfig) -> (r: Result<Probe, String>)
    ensures
        plan_view(r) == deepgram_plan(*cfg),
{
    if cfg.deepgram_api_key.as_str().unicode_len() == 0 {
        return Err(to_string("no Deepgram API key configured"));
    }
    Ok(
        Probe {
            url: to_string(DEEPGRAM_PROJECTS_URL),
            auth: Auth::Token(to_string(cfg.deepgram_api_key.as_str())),
            expect: Expect::Success(ok_detail(cfg.deepgram_model.as_str())),
        },
    )
}

/// How the post-processing provider is tested: a configuration problem
/// fails at once; Groq and Gemini must list the model; a custom server is
/// probed for reachability.
pub fn postprocess_probe(cfg: &AppConfig) -> (r: Result<Probe, String>)
    ensures
        plan_view(r) == postprocess_plan(*cfg),
{
    if let Some(problem) = postprocess_problem(cfg) {
        return Err(problem);
    }
    let url = models_url(cfg.active_postprocess_url(), "/chat/completions");
    let key = cfg.active_postprocess_key();
    let model = cfg.active_postprocess_model();
    if str_eq(cfg.postprocess_provider.as_str(), "groq") || str_eq(
        cfg.postprocess_provider.as_str(),
        "gemini",
    ) {
        Ok(
            Probe {
                url,
                auth: Auth::Bearer(to_string(key)),
                expect: Expect::Model(to_string(model)),
            },
        )
    } else {
        Ok(Probe { url, auth: bearer_unless_empty(key), expect: Expect::Reachable(to_string(model)) })
    }
}

/// The answer to a probe: the listing (or `Null` for a reply that is not
/// JSON), or what went wrong.
pub open spec fn probe_result_spec(expect: Expect, answer: Result<Json, Failure>) -> Result<
    Seq<char>,
    Seq<char>,
> {
    match answer {
        Ok(list) => match expect {
            Expect::Model(m) => if model_listed_spec(list, m@) {
                Ok(ok_detail_spec(m@))
            } else {
                Err("model "@ + m@ + " not found"@)
            },
            Expect::Reachable(m) => Ok(ok_detail_spec(m@)),
            Expect::Success(d) => Ok(d@),
        },
        Err(f) => match (expect, f) {
            (Expect::Reachable(_), Failure::Api(e)) => if e.status == 404 {
                Ok("reachable (no /models endpoint)"@)
            } else {
                Err(failure_detail(f))
            },
            _ => Err(failure_detail(f)),
        },
    }
}

/// Turns a probe's answer into the check's detail.
pub fn probe_result(expect: &Expect, answer: &Result<Json, Failure>) -> (r: Result<String, String>)
    ensures
        match (r, probe_result_spec(*expect, *answer)) {
            (Ok(a), Ok(b)) => a@ == b,
            (Err(a), Err(b)) => a@ == b,
            _ => false,
        },
{
    match answer {
        Ok(list) => match expect {
            Expect::Model(m) => require_model(list, m.as_str()),
            Expect::Reachable(m) => Ok(ok_detail(m.as_str())),
            Expect::Success(d) => Ok(to_string(d.as_str())),
        },
        Err(f) => {
            if let Expect::Reachable(_) = expect {
                if let Failure::Api(e) = f {
                    if e.status == 404 {
                        return Ok(to_string("reachable (no /models endpoint)"));
                    }
                }
            }
            Err(crate::pipeline::failure_detail_string(f))
        },
    }
}

/// The checks to run for `cfg`, in order: transcription always, streaming
/// when on, post-processing when on.
pub fn planned_checks(cfg: &AppConfig) -> (r: Vec<PlannedCheck>)
    ensures
        r@.len() == 1 + (if cfg.streaming_enabled { 1int } else { 0 }) + (if cfg.postprocess_enabled {
            1int
        } else {
            0
        }),
        r@[0].name@ == "Transcription ("@ + provider_label_spec(*cfg) + ")"@,
        cfg.streaming_enabled ==> r@[1].name@ == "Streaming (Deepgram)"@,
        cfg.postprocess_enabled ==> r@[r@.len() - 1].name@ == "Post-processing ("@
            + postprocess_label_spec(*cfg) + ")"@,
        plan_view(r@[0].plan) == transcription_plan(*cfg),
        cfg.streaming_enabled ==> plan_view(r@[1].plan) == deepgram_plan(*cfg),
        cfg.postprocess_enabled ==> plan_view(r@[r@.len() - 1].plan) == postprocess_plan(*cfg),
{
    let mut r: Vec<PlannedCheck> = Vec::new();
    let mut name = to_string("Transcription (");
    push_str(&mut name, provider_label(cfg));
    push_str(&mut name, ")");
    r.push(PlannedCheck { name, plan: transcription_probe(cfg) });
    if cfg.streaming_enabled {
        r.push(PlannedCheck { name: to_string("Streaming (Deepgram)"), plan: deepgram_probe(cfg) });
    }
    if cfg.postprocess_enabled {
        let mut name = to_string("Post-processing (");
        push_str(&mut name, postprocess_label(cfg));
        push_str(&mut name, ")");
        r.push(PlannedCheck { name, plan: postprocess_probe(cfg) });
    }
    r
}

// ── The settings app's view of a test ───────────────────────────────────────

/// A check as plain values: name, whether it passed, detail.
pub open spec fn check_view(c: Check) -> (Seq<char>, bool, Seq<char>) {
    (c.name@, c.ok, c.detail@)
}

/// The checks as plain values.
pub open spec fn checks_view(v: Seq<Check>) -> Seq<(Seq<char>, bool, Seq<char>)> {
    v.map_values(|c: Check| check_view(c))
}

/// How one reported item is shown: its name, whether it passed, and its
/// detail, or "Connected" / "Failed" when it gave none.
pub open spec fn item_outcome(item: Json) -> (Seq<char>, bool, Seq<char>) {
    let name = or_empty(str_value(field(Some(item), "name"@)));
    let ok = bool_value(field(Some(item), "ok"@)) == Some(true);
    let detail = or_empty(str_value(field(Some(item), "detail"@)));
    (name, ok, if detail.len() > 0 {
        detail
    } else if ok {
        "Connected"@
    } else {
        "Failed"@
    })
}

/// The rows shown for the daemon's test reply (`None`: not JSON).
pub open spec fn outcomes_spec(reply: Option<Json>) -> Seq<(Seq<char>, bool, Seq<char>)> {
    match reply {
        Some(Json::Array(items)) => if items@.len() == 0 {
            seq![("Nothing to test"@, true, "No providers are configured"@)]
        } else {
            items@.map_values(|item: Json| item_outcome(item))
        },
        _ => seq![("Unexpected reply"@, false, "The daemon's answer wasn't valid JSON"@)],
    }
}

fn text_member(item: &Json, key: &str) -> (r: String)
    ensures
        r@ == or_empty(str_value(field(Some(*item), key@))),
{
    match item.get(key) {
        Some(Json::Str(s)) => s.clone(),
        _ => String::new(),
    }
}

fn outcome_of(item: &Json) -> (r: Check)
    ensures
        check_view(r) == item_outcome(*item),
{
    let name = text_member(item, "name");
    let ok = match item.get("ok") {
        Some(Json::Bool(b)) => *b,
        _ => false,
    };
    let given = text_member(item, "detail");
    let detail = if given.as_str().unicode_len() > 0 {
        given
    } else if ok {
        to_string("Connected")
    } else {
        to_string("Failed")
    };
    Check { name, ok, detail }
}

/// The rows for the daemon's `TestConnections` reply, a JSON array of
/// `{name, ok, detail}` (`None` when the reply was not JSON).
pub fn connection_outcomes(reply: Option<&Json>) -> (r: Vec<Check>)
    ensures
        checks_view(r@) == outcomes_spec(match reply {
            Some(j) => Some(*j),
            None => None,
        }),
{
    match reply {
        Some(Json::Array(items)) => {
            if items.len() == 0 {
                let r = vec![Check {
                    name: to_string("Nothing to test"),
                    ok: true,
                    detail: to_string("No providers are configured"),
                }];
                proof {
                    assert(checks_view(r@) =~= seq![("Nothing to test"@, true, "No providers are configured"@)]);
                }
                return r;
            }
            let mut out: Vec<Check> = Vec::new();
            let mut i: usize = 0;
            while i < items.len()
                invariant
                    i <= items@.len(),
                    checks_view(out@) == items@.take(i as int).map_values(|item: Json| item_outcome(item)),
                decreases items@.len() - i,
            {
                let c = outcome_of(&items[i]);
                proof {
                    assert(items@.take(i + 1) =~= items@.take(i as int).push(items@[i as int]));
                }
                let ghost before = out@;
                out.push(c);
                proof {
                    assert(checks_view(out@) =~= checks_view(before).push(check_view(c)));
                    assert(items@.take(i + 1).map_values(|item: Json| item_outcome(item)) =~= items@.take(
                        i as int,
                    ).map_values(|item: Json| item_outcome(item)).push(item_outcome(items@[i as int])));
                }
                i = i + 1;
            }
            proof {
                assert(items@.take(items@.len() as int) =~= items@);
            }
            out
        },
        _ => {
            let r = vec![Check {
                name: to_string("Unexpected reply"),
                ok: false,
                detail: to_string("The daemon's answer wasn't valid JSON"),
            }];
            proof {
                assert(checks_view(r@) =~= seq![("Unexpected reply"@, false, "The daemon's answer wasn't valid JSON"@)]);
            }
            r
        },
    }
}

/// Why asking the daemon to test connections failed.
#[derive(Debug)]
pub enum CallFailure {
    /// The reply did not have the expected shape.
    BadFormat,
    /// The daemon predates the test method.
    UnknownMethod,
    /// No daemon on the bus.
    Unavailable,
    /// No answer in time.
    TimedOut,
    /// Anything else, with the error's message.
    Other(String),
}

/// The row shown for a failed test call.
pub open spec fn call_failure_spec(f: CallFailure) -> (Seq<char>, bool, Seq<char>) {
    match f {
        CallFailure::BadFormat => ("Unexpected reply"@, false, "The daemon's answer wasn't in the expected format"@),
        CallFailure::UnknownMethod => ("Daemon out of date"@, false, "This version of the daemon can't test connections \u{2014} update it"@),
        CallFailure::Unavailable => ("Daemon unavailable"@, false, "Start the daemon to test connections"@),
        CallFailure::TimedOut => ("Test timed out"@, false, "The daemon didn't answer in time"@),
        CallFailure::Other(m) => ("Test failed"@, false, m@),
    }
}

/// The row shown when the test call itself failed.
pub fn call_failure(f: CallFailure) -> (r: Check)
    ensures
        check_view(r) == call_failure_spec(f),
{
    let (name, detail) = match f {
        CallFailure::BadFormat => (
            to_string("Unexpected reply"),
            to_string("The daemon's answer wasn't in the expected format"),
        ),
        CallFailure::UnknownMethod => (
            to_string("Daemon out of date"),
            to_string("This version of the daemon can't test connections \u{2014} update it"),
        ),
        CallFailure::Unavailable => (
            to_string("Daemon unavailable"),
            to_string("Start the daemon to test connections"),
        ),
        CallFailure::TimedOut => (
            to_string("Test timed out"),
            to_string("The daemon didn't answer in time"),
        ),
        CallFailure::Other(m) => (to_string("Test failed"), m),
    };
    Check { name, ok: false, detail }
}

} // verus!
