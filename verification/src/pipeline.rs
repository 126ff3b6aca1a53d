//! The daemon's decisions around a recording: when to stop, whether what
//! was recorded is worth transcribing, how failures are retried and
//! described, and what the post-processing pass hands on.

use vstd::prelude::*;

use crate::api::{is_retryable_status, ApiError};
use crate::config::{is_prompt_echo_spec, AppConfig};
use crate::daemon::DiscardReason;
use crate::streaming::StreamEvent;
use crate::text::{push_str, str_eq, to_string};

verus! {

/// Level-loop ticks (about 33 ms each) of silence after speech that end a
/// recording when voice activity detection is on: about 1.5 s.
pub const SILENCE_THRESHOLD_TICKS: u64 = 45;

/// Tracks speech and trailing silence across level-loop ticks.
pub struct VadTracker {
    pub speech_detected: bool,
    pub silence_ticks: u64,
}

/// Why a recording ends by itself.
#[derive(Debug, PartialEq, Eq)]
pub enum AutoStop {
    /// Voice activity detection saw enough silence after speech.
    Silence,
    /// The maximum recording length was reached.
    MaxLength,
}

impl VadTracker {
    /// Nothing heard yet.
    pub fn new() -> (r: Self)
        ensures
            !r.speech_detected,
            r.silence_ticks == 0,
    {
        VadTracker { speech_detected: false, silence_ticks: 0 }
    }

    /// Record one level-loop tick, `loud` when the level reached the speech
    /// cutoff. Returns true the first time speech is heard. Silence is only
    /// counted after speech, and any speech resets it.
    pub fn observe(&mut self, loud: bool) -> (first_speech: bool)
        ensures
            loud ==> (final(self).speech_detected && final(self).silence_ticks == 0 && first_speech
                == !old(self).speech_detected),
            !loud && old(self).speech_detected ==> (final(self).speech_detected
                && final(self).silence_ticks == (if old(self).silence_ticks < u64::MAX {
                old(self).silence_ticks + 1
            } else {
                old(self).silence_ticks as int
            }) && !first_speech),
            !loud && !old(self).speech_detected ==> (*final(self) == *old(self) && !first_speech),
    {
        if loud {
            let first = !self.speech_detected;
            self.speech_detected = true;
            self.silence_ticks = 0;
            first
        } else {
            if self.speech_detected && self.silence_ticks < u64::MAX {
                self.silence_ticks = self.silence_ticks + 1;
            }
            false
        }
    }

    /// Whether the recording should end now: silence first (when voice
    /// activity detection is on), then the length cap (0 = no cap).
    pub fn auto_stop(&self, vad_enabled: bool, elapsed_ms: u64, max_recording_secs: u32) -> (r:
        Option<AutoStop>)
        ensures
            vad_enabled && self.silence_ticks >= SILENCE_THRESHOLD_TICKS ==> r == Some(
                AutoStop::Silence,
            ),
            !(vad_enabled && self.silence_ticks >= SILENCE_THRESHOLD_TICKS) ==> r == (if
            max_recording_secs > 0 && elapsed_ms >= max_recording_secs * 1000 {
                Some(AutoStop::MaxLength)
            } else {
                None
            }),
    {
        if vad_enabled && self.silence_ticks >= SILENCE_THRESHOLD_TICKS {
            Some(AutoStop::Silence)
        } else if max_recording_secs > 0 && elapsed_ms >= max_recording_secs as u64 * 1000 {
            Some(AutoStop::MaxLength)
        } else {
            None
        }
    }
}

/// Whether a stopped batch recording goes to the provider: it must last at
/// least 0.3 s, and with voice activity detection on it must have had
/// speech. Anything less is an accidental key press or silence, which
/// Whisper turns into invented text.
pub open spec fn worth_transcribing(samples: nat, sample_rate: nat, vad_enabled: bool, speech_detected: bool) -> bool {
    10 * samples >= 3 * sample_rate && !(vad_enabled && !speech_detected)
}

/// Decides whether a stopped recording is transcribed.
pub fn should_transcribe(samples: usize, sample_rate: u32, vad_enabled: bool, speech_detected: bool) -> (r: bool)
    ensures
        r == worth_transcribing(samples as nat, sample_rate as nat, vad_enabled, speech_detected),
{
    let too_short = (samples as u128) * 10 < (sample_rate as u128) * 3;
    !too_short && !(vad_enabled && !speech_detected)
}

/// Whether a recording streams: streaming is on and post-processing (which
/// takes priority) is off.
pub fn uses_streaming(cfg: &AppConfig) -> (r: bool)
    ensures
        r == (cfg.streaming_enabled && !cfg.postprocess_enabled),
{
    cfg.streaming_enabled && !cfg.postprocess_enabled
}

/// The streaming provider's name as shown to users.
pub fn streaming_label() -> (r: &'static str)
    ensures
        r@ == "Deepgram"@,
{
    "Deepgram"
}

/// Why a streaming recording cannot start, before the microphone opens.
pub open spec fn streaming_problem_spec(cfg: AppConfig) -> Option<Seq<char>> {
    if !cfg.direct_injection {
        Some("Deepgram: streaming requires direct injection to be enabled"@)
    } else if cfg.deepgram_api_key@.len() == 0 {
        Some("Deepgram: missing API key"@)
    } else {
        None
    }
}

/// The message a streaming start fails with, if it must fail.
pub fn streaming_problem(cfg: &AppConfig) -> (r: Option<String>)
    ensures
        match r {
            Some(m) => streaming_problem_spec(*cfg) == Some(m@),
            None => streaming_problem_spec(*cfg) is None,
        },
{
    if !cfg.direct_injection {
        Some(to_string("Deepgram: streaming requires direct injection to be enabled"))
    } else if cfg.deepgram_api_key.as_str().unicode_len() == 0 {
        Some(to_string("Deepgram: missing API key"))
    } else {
        None
    }
}

/// Groq (and the retired Cohere) need a key; a custom endpoint may be a
/// keyless local server.
pub open spec fn missing_key_spec(cfg: AppConfig) -> bool {
    (cfg.provider@ == "groq"@ || cfg.provider@ == "cohere"@) && (if cfg.is_groq() {
        cfg.groq_api_key@
    } else {
        cfg.custom_api_key@
    }).len() == 0
}

/// Whether a transcription request would go out without a key it needs.
pub fn missing_key(cfg: &AppConfig) -> (r: bool)
    ensures
        r == missing_key_spec(*cfg),
{
    let needs_key = str_eq(cfg.provider.as_str(), "groq") || str_eq(cfg.provider.as_str(), "cohere");
    needs_key && cfg.active_key().unicode_len() == 0
}

/// What went wrong with a request, as far as the daemon tells failures
/// apart.
#[derive(Debug)]
pub enum Failure {
    /// The provider answered with an error status.
    Api(ApiError),
    /// The request timed out.
    Timeout,
    /// The connection could not be made.
    Connect,
    /// The request itself could not be sent; the text describes it.
    Request(String),
    /// Anything else; the text describes it.
    Other(String),
}

/// Transient failures: rate limits, server errors and network trouble.
pub open spec fn retryable_failure(f: Failure) -> bool {
    match f {
        Failure::Api(e) => is_retryable_status(e.status),
        Failure::Timeout | Failure::Connect | Failure::Request(_) => true,
        Failure::Other(_) => false,
    }
}

/// Returns true for failures that may be transient and worth retrying.
pub fn is_retryable(f: &Failure) -> (r: bool)
    ensures
        r == retryable_failure(*f),
{
    match f {
        Failure::Api(e) => e.is_retryable(),
        Failure::Timeout | Failure::Connect | Failure::Request(_) => true,
        Failure::Other(_) => false,
    }
}

/// How many times a transcription is attempted at most.
pub const MAX_ATTEMPTS: u32 = 3;

/// The longest `Retry-After` honoured, in milliseconds.
pub const MAX_RETRY_AFTER_MS: u64 = 30_000;

/// The wait before the next attempt, after `attempt` attempts have failed
/// (the last with `f`): `None` to give up, which happens once three attempts
/// failed or the failure is not transient. The provider's `Retry-After` is
/// honoured up to 30 s; without one the wait is 600 ms per failed attempt.
pub open spec fn retry_delay_spec(attempt: u32, f: Failure) -> Option<u64> {
    if attempt >= MAX_ATTEMPTS || !retryable_failure(f) {
        None
    } else {
        match f {
            Failure::Api(e) => match e.retry_after_ms {
                Some(ms) => Some(if ms < MAX_RETRY_AFTER_MS {
                    ms
                } else {
                    MAX_RETRY_AFTER_MS
                }),
                None => Some((600 * attempt) as u64),
            },
            _ => Some((600 * attempt) as u64),
        }
    }
}

/// Decides whether and when to retry a failed transcription.
pub fn retry_delay_ms(attempt: u32, f: &Failure) -> (r: Option<u64>)
    ensures
        r == retry_delay_spec(attempt, *f),
{
    if attempt >= MAX_ATTEMPTS || !is_retryable(f) {
        return None;
    }
    let fallback = 600 * attempt as u64;
    match f {
        Failure::Api(e) => match e.retry_after_ms {
            Some(ms) => Some(if ms < MAX_RETRY_AFTER_MS {
                ms
            } else {
                MAX_RETRY_AFTER_MS
            }),
            None => Some(fallback),
        },
        _ => Some(fallback),
    }
}

/// A transcription is attempted at most three times, and never waits more
/// than 30 s between attempts.
pub proof fn law_retries_are_bounded(attempt: u32, f: Failure)
    ensures
        attempt >= MAX_ATTEMPTS ==> retry_delay_spec(attempt, f) is None,
        retry_delay_spec(attempt, f) matches Some(ms) ==> ms <= MAX_RETRY_AFTER_MS,
{
}

/// Every transient failure before the last attempt is retried, and only
/// those: without a `Retry-After` the wait grows by 600 ms per failed
/// attempt, with one it is the provider's wait (capped at 30 s); a failure
/// that is not transient is never retried.
pub proof fn law_transient_failures_are_retried(attempt: u32, f: Failure)
    ensures
        attempt < MAX_ATTEMPTS && retryable_failure(f) ==> retry_delay_spec(attempt, f) is Some,
        !retryable_failure(f) ==> retry_delay_spec(attempt, f) is None,
        attempt < MAX_ATTEMPTS && retryable_failure(f) ==> retry_delay_spec(attempt, f) == Some(
            match retry_after(f) {
                Some(ms) => if ms < MAX_RETRY_AFTER_MS {
                    ms
                } else {
                    MAX_RETRY_AFTER_MS
                },
                None => (600 * attempt) as u64,
            },
        ),
        0 < attempt && attempt + 1 < MAX_ATTEMPTS && retryable_failure(f) && retry_after(f) is None
            ==> retry_delay_spec(attempt, f)->0 < retry_delay_spec((attempt + 1) as u32, f)->0,
{
}

/// The provider's `Retry-After`, in milliseconds, if the failure carries one.
pub open spec fn retry_after(f: Failure) -> Option<u64> {
    match f {
        Failure::Api(e) => e.retry_after_ms,
        _ => None,
    }
}

/// The detail of a failure as users see it.
pub open spec fn failure_detail(f: Failure) -> Seq<char> {
    match f {
        Failure::Api(e) => crate::api::short_spec(e.status, e.body_json),
        Failure::Timeout => "request timed out"@,
        Failure::Connect => "could not connect"@,
        Failure::Request(m) => m@,
        Failure::Other(m) => m@,
    }
}

/// The detail of a failure as users see it.
pub fn failure_detail_string(f: &Failure) -> (r: String)
    ensures
        r@ == failure_detail(*f),
{
    match f {
        Failure::Api(e) => e.short(),
        Failure::Timeout => to_string("request timed out"),
        Failure::Connect => to_string("could not connect"),
        Failure::Request(m) => to_string(m.as_str()),
        Failure::Other(m) => to_string(m.as_str()),
    }
}

/// The transcription provider's name in the daemon's error messages; a
/// configuration that still names the retired Cohere says so.
pub open spec fn error_label_spec(cfg: AppConfig) -> Seq<char> {
    if cfg.provider@ == "groq"@ {
        "Groq"@
    } else if cfg.provider@ == "cohere"@ {
        "Cohere"@
    } else {
        "Custom endpoint"@
    }
}

/// The transcription provider's name in the daemon's error messages.
pub fn error_label(cfg: &AppConfig) -> (r: &'static str)
    ensures
        r@ == error_label_spec(*cfg),
{
    if str_eq(cfg.provider.as_str(), "groq") {
        "Groq"
    } else if str_eq(cfg.provider.as_str(), "cohere") {
        "Cohere"
    } else {
        "Custom endpoint"
    }
}

/// Short user-facing form of a transcription failure, e.g. "Groq: 413 file
/// too large": the provider's label, then the failure's detail.
pub fn describe_error(cfg: &AppConfig, f: &Failure) -> (r: String)
    ensures
        r@ == error_label_spec(*cfg) + ": "@ + failure_detail(*f),
{
    let detail = failure_detail_string(f);
    let mut r = to_string(error_label(cfg));
    push_str(&mut r, ": ");
    push_str(&mut r, detail.as_str());
    r
}

/// What becomes of a transcript the provider returned.
#[derive(Debug, PartialEq, Eq, Structural)]
pub enum TranscriptOutcome {
    /// Deliver it (after polishing, where that is on).
    Deliver,
    /// Discard the session without text, for this reason.
    Discard(DiscardReason),
}

/// A transcript is no speech when it is empty, or when it only parrots the
/// vocabulary prompt back, as Whisper does on silent audio.
pub open spec fn is_no_speech(c: AppConfig, text: Seq<char>) -> bool {
    text.len() == 0 || is_prompt_echo_spec(c, text)
}

/// Decides whether the raw transcript `text` is delivered or the session
/// is discarded as "no speech".
pub fn transcript_outcome(cfg: &AppConfig, text: &str) -> (r: TranscriptOutcome)
    ensures
        r == (if is_no_speech(*cfg, text@) {
            TranscriptOutcome::Discard(DiscardReason::NoSpeech)
        } else {
            TranscriptOutcome::Deliver
        }),
{
    if text.unicode_len() == 0 || cfg.is_prompt_echo(text) {
        TranscriptOutcome::Discard(DiscardReason::NoSpeech)
    } else {
        TranscriptOutcome::Deliver
    }
}

/// Whether the raw transcript goes through the post-processing pass: it is
/// switched on and there is text.
pub fn needs_polish(cfg: &AppConfig, raw: &str) -> (r: bool)
    ensures
        r == (cfg.postprocess_enabled && raw@.len() > 0),
{
    cfg.postprocess_enabled && raw.unicode_len() > 0
}

/// The text delivered after a polish attempt, and the original kept beside
/// it: the polished text with the raw transcript, or, when polishing
/// failed, the raw transcript alone rather than losing it.
pub fn polish_outcome(raw: String, polished: Result<String, String>) -> (r: (String, Option<String>))
    ensures
        polished matches Ok(p) ==> (r.0 == p && r.1 == Some(raw)),
        polished is Err ==> (r.0 == raw && r.1 is None),
{
    match polished {
        Ok(p) => (p, Some(raw)),
        Err(_) => (raw, None),
    }
}

/// Appends a finalized streaming phrase to the transcript so far, with a
/// space between phrases.
pub fn append_phrase(accumulated: &mut String, phrase: &str)
    ensures
        final(accumulated)@ == if old(accumulated)@.len() == 0 {
            phrase@
        } else {
            old(accumulated)@.push(' ') + phrase@
        },
{
    if accumulated.as_str().unicode_len() > 0 {
        accumulated.push(' ');
    }
    push_str(accumulated, phrase);
}

/// The transcript after a phrase: the phrase alone at first, then each
/// phrase after a space.
pub open spec fn appended(acc: Seq<char>, phrase: Seq<char>) -> Seq<char> {
    if acc.len() == 0 {
        phrase
    } else {
        acc.push(' ') + phrase
    }
}

/// What the daemon does with an event of the streaming session.
#[derive(Debug)]
pub enum RelayAction {
    /// Announce the transcript so far (a cumulative chunk).
    Chunk(String),
    /// The session was cancelled: stop relaying.
    Stop,
    /// The stream closed with nothing said: discard the session as no
    /// speech.
    Idle,
    /// Deliver the transcript, then Done.
    Deliver(String),
    /// Deliver what was said, if anything, then fail with the message.
    DeliverAndFail(Option<String>, String),
}

/// The streaming transcript of a session, relayed phrase by phrase.
pub struct StreamRelay {
    pub accumulated: String,
}

impl StreamRelay {
    /// Nothing said yet.
    pub fn new() -> (r: Self)
        ensures
            r.accumulated@.len() == 0,
    {
        StreamRelay { accumulated: String::new() }
    }

    /// Handle the next event of the session (`None`: the session's channel
    /// closed, as after an abort). `current` tells whether the session is
    /// still the daemon's; `label` names the provider in failures.
    pub fn on_event(&mut self, event: Option<StreamEvent>, current: bool, label: &str) -> (r: RelayAction)
        ensures
            match event {
                Some(StreamEvent::Final(phrase)) => if current {
                    final(self).accumulated@ == appended(old(self).accumulated@, phrase@)
                        && (r matches RelayAction::Chunk(t) && t@ == final(self).accumulated@)
                } else {
                    r is Stop && final(self).accumulated@ == old(self).accumulated@
                },
                Some(StreamEvent::Error(e)) => final(self).accumulated@ == old(self).accumulated@
                    && (r matches RelayAction::DeliverAndFail(said, msg) && msg@ == label@ + ": "@
                    + e@ && (if old(self).accumulated@.len() == 0 {
                    said is None
                } else {
                    (said matches Some(t) && t@ == old(self).accumulated@)
                })),
                _ => final(self).accumulated@ == old(self).accumulated@ && (if old(
                    self,
                ).accumulated@.len() == 0 {
                    r is Idle
                } else {
                    r matches RelayAction::Deliver(t) && t@ == old(self).accumulated@
                }),
            },
    {
        match event {
            Some(StreamEvent::Final(phrase)) => {
                if !current {
                    return RelayAction::Stop;
                }
                append_phrase(&mut self.accumulated, phrase.as_str());
                RelayAction::Chunk(self.accumulated.clone())
            },
            Some(StreamEvent::Error(e)) => {
                let said = if self.accumulated.as_str().unicode_len() == 0 {
                    None
                } else {
                    Some(self.accumulated.clone())
                };
                let mut msg = to_string(label);
                push_str(&mut msg, ": ");
                push_str(&mut msg, e.as_str());
                RelayAction::DeliverAndFail(said, msg)
            },
            _ => {
                if self.accumulated.as_str().unicode_len() == 0 {
                    RelayAction::Idle
                } else {
                    RelayAction::Deliver(self.accumulated.clone())
                }
            },
        }
    }
}

/// The chunks a streaming session announces are cumulative: each extends
/// the one before, so a client that types only the new part types every
/// phrase exactly once.
pub proof fn law_chunks_are_cumulative(acc: Seq<char>, phrase: Seq<char>)
    ensures
        acc.is_prefix_of(appended(acc, phrase)),
        appended(acc, phrase).len() >= acc.len() + phrase.len(),
{
    if acc.len() > 0 {
        assert(acc.is_prefix_of(acc.push(' ') + phrase)) by {
            assert forall|i: int| 0 <= i < acc.len() implies (acc.push(' ') + phrase)[i] == acc[i] by {}
        }
    }
}

} // verus!
