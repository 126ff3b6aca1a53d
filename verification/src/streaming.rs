//! Real-time streaming transcription: reading provider messages, closing
//! frames, session URLs and cutting audio into WebSocket frames.

use vstd::prelude::*;

use crate::json::{bool_value, element, field, str_field, str_value, Json};
use crate::text::{decimal, decimal_string, push_str, str_eq, to_string, trim, trim_seq};

verus! {

/// Events emitted by a live streaming session.
#[derive(Debug)]
pub enum StreamEvent {
    /// A finalized phrase: append to the accumulated transcript.
    Final(String),
    /// The session closed cleanly; no more events will be sent.
    Done,
    /// The session terminated with an error.
    Error(String),
}

/// A plain model of an event, for contracts.
pub enum EventModel {
    Final(Seq<char>),
    Done,
    Error(Seq<char>),
}

/// The model of an optional event.
pub open spec fn event_model(e: Option<StreamEvent>) -> Option<EventModel> {
    match e {
        Some(StreamEvent::Final(t)) => Some(EventModel::Final(t@)),
        Some(StreamEvent::Done) => Some(EventModel::Done),
        Some(StreamEvent::Error(m)) => Some(EventModel::Error(m@)),
        None => None,
    }
}

/// What a Deepgram message means: a final `Results` message with a
/// non-empty first transcript is a phrase; anything else is ignored.
pub open spec fn deepgram_event(v: Json) -> Option<EventModel> {
    let transcript = str_value(
        field(element(field(field(Some(v), "channel"@), "alternatives"@), 0), "transcript"@),
    );
    if str_value(field(Some(v), "type"@)) == Some("Results"@) && bool_value(
        field(Some(v), "is_final"@),
    ) == Some(true) {
        match transcript {
            Some(t) => if t.len() > 0 {
                Some(EventModel::Final(t))
            } else {
                None
            },
            None => None,
        }
    } else {
        None
    }
}

/// Reads a Deepgram message.
pub fn parse_deepgram_message(v: &Json) -> (r: Option<StreamEvent>)
    ensures
        event_model(r) == deepgram_event(*v),
{
    proof {
        reveal_strlit("Results");
    }
    let kind = match str_field(v, "type") {
        Some(k) => k,
        None => return None,
    };
    if !str_eq(kind, "Results") {
        return None;
    }
    let is_final = match v.get("is_final") {
        Some(b) => b.as_bool(),
        None => None,
    };
    if is_final != Some(true) {
        return None;
    }
    let channel = match v.get("channel") {
        Some(c) => c,
        None => return None,
    };
    let alternatives = match channel.get("alternatives") {
        Some(a) => a,
        None => return None,
    };
    let first = match alternatives.at(0) {
        Some(f) => f,
        None => return None,
    };
    match str_field(first, "transcript") {
        Some(t) => if t.unicode_len() > 0 {
            Some(StreamEvent::Final(to_string(t)))
        } else {
            None
        },
        None => None,
    }
}

/// What an AssemblyAI (v3 Universal Streaming) message means. Each turn
/// arrives twice with `format_turns=true`; only the formatted end of a turn
/// is taken, trimmed, and only when it has text. `Termination` ends the
/// session; any other message with an `error` string is an error.
pub open spec fn assemblyai_event(v: Json) -> Option<EventModel> {
    let kind = str_value(field(Some(v), "type"@));
    if kind == Some("Turn"@) {
        match str_value(field(Some(v), "transcript"@)) {
            Some(t) => if bool_value(field(Some(v), "end_of_turn"@)) == Some(true) && bool_value(
                field(Some(v), "turn_is_formatted"@),
            ) == Some(true) && trim_seq(t).len() > 0 {
                Some(EventModel::Final(trim_seq(t)))
            } else {
                None
            },
            None => None,
        }
    } else if kind == Some("Termination"@) {
        Some(EventModel::Done)
    } else if kind is Some {
        match str_value(field(Some(v), "error"@)) {
            Some(e) => Some(EventModel::Error(e)),
            None => None,
        }
    } else {
        None
    }
}

/// Reads an AssemblyAI message.
pub fn parse_assemblyai_message(v: &Json) -> (r: Option<StreamEvent>)
    ensures
        event_model(r) == assemblyai_event(*v),
{
    let kind = match str_field(v, "type") {
        Some(k) => k,
        None => return None,
    };
    if str_eq(kind, "Turn") {
        let transcript = match str_field(v, "transcript") {
            Some(t) => trim(t),
            None => return None,
        };
        let end_of_turn = match v.get("end_of_turn") {
            Some(b) => b.as_bool(),
            None => None,
        };
        let formatted = match v.get("turn_is_formatted") {
            Some(b) => b.as_bool(),
            None => None,
        };
        if end_of_turn == Some(true) && formatted == Some(true) && transcript.unicode_len() > 0 {
            Some(StreamEvent::Final(to_string(transcript)))
        } else {
            None
        }
    } else if str_eq(kind, "Termination") {
        Some(StreamEvent::Done)
    } else {
        match str_field(v, "error") {
            Some(e) => Some(StreamEvent::Error(to_string(e))),
            None => None,
        }
    }
}

/// The WebSocket close code of a normal closure.
pub const CLOSE_NORMAL: u16 = 1000;

/// What a server-initiated close means: only a normal close (or one without
/// a frame) is "done"; any other code is how both providers report errors.
pub open spec fn close_event_spec(frame: Option<(u16, Seq<char>)>) -> EventModel {
    match frame {
        Some((code, reason)) => if code != CLOSE_NORMAL {
            EventModel::Error(
                if reason.len() == 0 {
                    "connection closed ("@ + decimal(code as nat) + ")"@
                } else {
                    reason + " ("@ + decimal(code as nat) + ")"@
                },
            )
        } else {
            EventModel::Done
        },
        None => EventModel::Done,
    }
}

/// The event a close frame (code and reason) turns into.
pub fn close_event(frame: Option<(u16, &str)>) -> (r: StreamEvent)
    ensures
        event_model(Some(r)) == Some(close_event_spec(match frame {
            Some((c, s)) => Some((c, s@)),
            None => None,
        })),
{
    match frame {
        Some((code, reason)) => {
            if code != CLOSE_NORMAL {
                let mut m = if reason.unicode_len() == 0 {
                    to_string("connection closed (")
                } else {
                    let mut m = to_string(reason);
                    push_str(&mut m, " (");
                    m
                };
                let digits = decimal_string(code as u64);
                push_str(&mut m, digits.as_str());
                push_str(&mut m, ")");
                StreamEvent::Error(m)
            } else {
                StreamEvent::Done
            }
        },
        None => StreamEvent::Done,
    }
}

// ── Session URLs ─────────────────────────────────────────────────────────────

/// The Deepgram listen URL for a session.
pub open spec fn deepgram_url_spec(model: Seq<char>, sample_rate: u32, language: Option<Seq<char>>) -> Seq<char> {
    "wss://api.deepgram.com/v1/listen?model="@ + model + "&encoding=linear16&sample_rate="@
        + decimal(sample_rate as nat)
        + "&channels=1&interim_results=true&endpointing=300"@ + match language {
        Some(l) => "&language="@ + l,
        None => Seq::empty(),
    }
}

/// The Deepgram listen URL for a session: linear16 mono at `sample_rate`,
/// interim results and 300 ms endpointing, with the language when set.
pub fn deepgram_url(model: &str, sample_rate: u32, language: Option<&str>) -> (r: String)
    ensures
        r@ == deepgram_url_spec(
            model@,
            sample_rate,
            match language {
                Some(l) => Some(l@),
                None => None,
            },
        ),
{
    let mut r = to_string("wss://api.deepgram.com/v1/listen?model=");
    push_str(&mut r, model);
    push_str(&mut r, "&encoding=linear16&sample_rate=");
    let rate = decimal_string(sample_rate as u64);
    push_str(&mut r, rate.as_str());
    push_str(&mut r, "&channels=1&interim_results=true&endpointing=300");
    let ghost before = r@;
    match language {
        Some(l) => {
            push_str(&mut r, "&language=");
            push_str(&mut r, l);
            proof {
                assert(r@ =~= before + ("&language="@ + l@));
            }
        },
        None => {
            proof {
                assert(r@ =~= before + Seq::<char>::empty());
            }
        },
    }
    r
}

/// Whether `needle` occurs in `s`.
pub open spec fn occurs_in(s: Seq<char>, needle: Seq<char>) -> bool {
    exists|k: int| 0 <= k && k + needle.len() <= s.len() && #[trigger] s.subrange(k, k + needle.len()) == needle
}

/// A text occurs in any text that holds it between two others.
pub proof fn lemma_occurs_in(a: Seq<char>, needle: Seq<char>, b: Seq<char>)
    ensures
        occurs_in(a + needle + b, needle),
{
    let s = a + needle + b;
    assert(s.subrange(a.len() as int, (a.len() + needle.len()) as int) =~= needle);
}

/// The Deepgram session is told what it receives: the URL starts with the
/// listen endpoint and the model asked for; it holds the encoding
/// (linear16), the session's sample rate and one channel, each as a whole
/// parameter, asks for interim results and 300 ms endpointing, and ends
/// with the language when one is set.
pub proof fn law_deepgram_url_names_the_session(
    model: Seq<char>,
    sample_rate: u32,
    language: Option<Seq<char>>,
)
    ensures
        ({
            let url = deepgram_url_spec(model, sample_rate, language);
            &&& ("wss://api.deepgram.com/v1/listen?model="@ + model).is_prefix_of(url)
            &&& occurs_in(url, "&encoding=linear16&"@)
            &&& occurs_in(url, "&sample_rate="@ + decimal(sample_rate as nat) + "&"@)
            &&& occurs_in(url, "&channels=1&"@)
            &&& occurs_in(url, "&interim_results=true&"@)
            &&& (match language {
                Some(l) => ("&endpointing=300&language="@ + l).is_suffix_of(url),
                None => "&endpointing=300"@.is_suffix_of(url),
            })
        }),
{
    let head = "wss://api.deepgram.com/v1/listen?model="@ + model;
    let d = decimal(sample_rate as nat);
    let tail = match language {
        Some(l) => "&language="@ + l,
        None => Seq::empty(),
    };
    let url = deepgram_url_spec(model, sample_rate, language);
    let opts = "&channels=1&interim_results=true&endpointing=300"@;
    assert(url =~= head + "&encoding=linear16&sample_rate="@ + d + opts + tail);
    assert(head.is_prefix_of(url)) by {
        assert(url.subrange(0, head.len() as int) =~= head);
    }
    assert(occurs_in(url, "&encoding=linear16&"@)) by {
        reveal_strlit("&encoding=linear16&sample_rate=");
        reveal_strlit("&encoding=linear16&");
        reveal_strlit("sample_rate=");
        let b = "sample_rate="@ + d + opts + tail;
        assert(url =~= head + "&encoding=linear16&"@ + b);
        lemma_occurs_in(head, "&encoding=linear16&"@, b);
    }
    assert(occurs_in(url, "&sample_rate="@ + d + "&"@)) by {
        reveal_strlit("&encoding=linear16&sample_rate=");
        reveal_strlit("&encoding=linear16");
        reveal_strlit("&sample_rate=");
        reveal_strlit("&channels=1&interim_results=true&endpointing=300");
        reveal_strlit("channels=1&interim_results=true&endpointing=300");
        reveal_strlit("&");
        let a = head + "&encoding=linear16"@;
        let b = "channels=1&interim_results=true&endpointing=300"@ + tail;
        assert(url =~= a + ("&sample_rate="@ + d + "&"@) + b);
        lemma_occurs_in(a, "&sample_rate="@ + d + "&"@, b);
    }
    assert(occurs_in(url, "&channels=1&"@)) by {
        reveal_strlit("&channels=1&interim_results=true&endpointing=300");
        reveal_strlit("&channels=1&");
        reveal_strlit("interim_results=true&endpointing=300");
        let a = head + "&encoding=linear16&sample_rate="@ + d;
        let b = "interim_results=true&endpointing=300"@ + tail;
        assert(url =~= a + "&channels=1&"@ + b);
        lemma_occurs_in(a, "&channels=1&"@, b);
    }
    assert(occurs_in(url, "&interim_results=true&"@)) by {
        reveal_strlit("&channels=1&interim_results=true&endpointing=300");
        reveal_strlit("&channels=1");
        reveal_strlit("&interim_results=true&");
        reveal_strlit("endpointing=300");
        let a = head + "&encoding=linear16&sample_rate="@ + d + "&channels=1"@;
        let b = "endpointing=300"@ + tail;
        assert(url =~= a + "&interim_results=true&"@ + b);
        lemma_occurs_in(a, "&interim_results=true&"@, b);
    }
    let last = "&endpointing=300"@ + tail;
    assert(last.is_suffix_of(url)) by {
        reveal_strlit("&channels=1&interim_results=true&endpointing=300");
        reveal_strlit("&channels=1&interim_results=true");
        reveal_strlit("&endpointing=300");
        let a = head + "&encoding=linear16&sample_rate="@ + d + "&channels=1&interim_results=true"@;
        assert(url =~= a + last);
        assert(url.subrange(url.len() - last.len(), url.len() as int) =~= last);
    }
    match language {
        Some(l) => {
            assert(last =~= "&endpointing=300&language="@ + l) by {
                reveal_strlit("&endpointing=300&language=");
                reveal_strlit("&endpointing=300");
                reveal_strlit("&language=");
            }
        },
        None => {
            assert(last =~= "&endpointing=300"@);
        },
    }
}

/// The AssemblyAI session is told the rate the audio is captured at: the
/// URL holds "?sample_rate=" with the session's rate up to the next
/// parameter, and ends with the language code when one is set.
pub proof fn law_assemblyai_url_names_the_session(sample_rate: u32, language: Option<Seq<char>>)
    ensures
        ({
            let url = assemblyai_url_spec(sample_rate, language);
            &&& occurs_in(url, "?sample_rate="@ + decimal(sample_rate as nat) + "&"@)
            &&& (match language {
                Some(l) => ("&language_code="@ + l).is_suffix_of(url),
                None => true,
            })
        }),
{
    reveal_strlit("wss://streaming.assemblyai.com/v3/ws?sample_rate=");
    reveal_strlit("wss://streaming.assemblyai.com/v3/ws");
    reveal_strlit("?sample_rate=");
    reveal_strlit("&encoding=pcm_s16le&format_turns=true");
    reveal_strlit("encoding=pcm_s16le&format_turns=true");
    reveal_strlit("&");
    let d = decimal(sample_rate as nat);
    let tail = match language {
        Some(l) => "&language_code="@ + l,
        None => Seq::empty(),
    };
    let url = assemblyai_url_spec(sample_rate, language);
    let x = "wss://streaming.assemblyai.com/v3/ws"@;
    let needle = "?sample_rate="@ + d + "&"@;
    assert("wss://streaming.assemblyai.com/v3/ws?sample_rate="@ =~= x + "?sample_rate="@);
    assert("&encoding=pcm_s16le&format_turns=true"@ =~= "&"@ + "encoding=pcm_s16le&format_turns=true"@);
    let rest = "encoding=pcm_s16le&format_turns=true"@ + tail;
    assert(url =~= x + needle + rest);
    assert(url.subrange(x.len() as int, (x.len() + needle.len()) as int) =~= needle);
    if let Some(l) = language {
        let mid = "wss://streaming.assemblyai.com/v3/ws?sample_rate="@ + d
            + "&encoding=pcm_s16le&format_turns=true"@;
        assert(url =~= mid + tail);
        assert(url.subrange(url.len() - tail.len(), url.len() as int) =~= tail);
    }
}

/// The AssemblyAI v3 URL for a session.
pub open spec fn assemblyai_url_spec(sample_rate: u32, language: Option<Seq<char>>) -> Seq<char> {
    "wss://streaming.assemblyai.com/v3/ws?sample_rate="@ + decimal(sample_rate as nat)
        + "&encoding=pcm_s16le&format_turns=true"@ + match language {
        Some(l) => "&language_code="@ + l,
        None => Seq::empty(),
    }
}

/// The AssemblyAI v3 URL for a session: 16-bit PCM at `sample_rate` with
/// formatted turns, with the language when set.
pub fn assemblyai_url(sample_rate: u32, language: Option<&str>) -> (r: String)
    ensures
        r@ == assemblyai_url_spec(
            sample_rate,
            match language {
                Some(l) => Some(l@),
                None => None,
            },
        ),
{
    let mut r = to_string("wss://streaming.assemblyai.com/v3/ws?sample_rate=");
    let rate = decimal_string(sample_rate as u64);
    push_str(&mut r, rate.as_str());
    push_str(&mut r, "&encoding=pcm_s16le&format_turns=true");
    let ghost before = r@;
    match language {
        Some(l) => {
            push_str(&mut r, "&language_code=");
            push_str(&mut r, l);
            proof {
                assert(r@ =~= before + ("&language_code="@ + l@));
            }
        },
        None => {
            proof {
                assert(r@ =~= before + Seq::<char>::empty());
            }
        },
    }
    r
}

/// A streaming provider's framing rules.
pub struct Provider {
    pub name: &'static str,
    /// Text frame that asks the server to flush and close.
    pub close_message: &'static str,
    /// Samples per binary frame: buffer until at least `min_chunk`, split
    /// above `max_chunk`.
    pub min_chunk: usize,
    pub max_chunk: usize,
}

/// Deepgram takes frames of any size.
pub fn deepgram_provider() -> (r: Provider)
    ensures
        r.name@ == "Deepgram"@,
        r.close_message@ == "{\"type\":\"CloseStream\"}"@,
        r.min_chunk == 0,
        r.max_chunk == usize::MAX,
{
    Provider {
        name: "Deepgram",
        close_message: "{\"type\":\"CloseStream\"}",
        min_chunk: 0,
        max_chunk: usize::MAX,
    }
}

/// AssemblyAI v3 rejects binary frames outside 50–1000 ms of audio.
pub fn assemblyai_provider(sample_rate: u32) -> (r: Provider)
    ensures
        r.name@ == "AssemblyAI"@,
        r.close_message@ == "{\"type\":\"Terminate\"}"@,
        r.min_chunk == sample_rate / 20,
        r.max_chunk == sample_rate,
{
    Provider {
        name: "AssemblyAI",
        close_message: "{\"type\":\"Terminate\"}",
        min_chunk: sample_rate as usize / 20,
        max_chunk: sample_rate as usize,
    }
}


// ── Framing ──────────────────────────────────────────────────────────────────

/// Cuts `s` into frames of at most `max` samples, front first, for as long
/// as what is left is non-empty and either the stream ended or it holds at
/// least `min` samples. Returns the frames and what is left over.
pub open spec fn split_frames(s: Seq<i16>, min: nat, max: nat, end: bool) -> (Seq<Seq<i16>>, Seq<i16>)
    decreases s.len(),
{
    if max > 0 && s.len() > 0 && (end || s.len() >= min) {
        let n = if s.len() < max {
            s.len()
        } else {
            max
        };
        let rest = split_frames(s.skip(n as int), min, max, end);
        (seq![s.take(n as int)] + rest.0, rest.1)
    } else {
        (Seq::empty(), s)
    }
}

/// The samples of a list of frames, in order.
pub open spec fn flatten(frames: Seq<Seq<i16>>) -> Seq<i16>
    decreases frames.len(),
{
    if frames.len() == 0 {
        Seq::empty()
    } else {
        frames[0] + flatten(frames.drop_first())
    }
}

/// The views of a list of frames.
pub open spec fn frame_views(v: Seq<Vec<i16>>) -> Seq<Seq<i16>> {
    v.map_values(|f: Vec<i16>| f@)
}

/// Buffers audio for a streaming session and cuts it into frames.
pub struct Framer {
    pub pending: Vec<i16>,
    pub min_chunk: usize,
    pub max_chunk: usize,
}

proof fn lemma_split_step(s: Seq<i16>, min: nat, max: nat, end: bool, n: nat)
    requires
        max > 0,
        s.len() > 0,
        end || s.len() >= min,
        n == if s.len() < max {
            s.len()
        } else {
            max
        },
    ensures
        split_frames(s, min, max, end) == (
            seq![s.take(n as int)] + split_frames(s.skip(n as int), min, max, end).0,
            split_frames(s.skip(n as int), min, max, end).1,
        ),
{
}

impl Framer {
    /// An empty buffer with a provider's frame limits.
    pub fn new(min_chunk: usize, max_chunk: usize) -> (r: Self)
        ensures
            r.pending@.len() == 0,
            r.min_chunk == min_chunk,
            r.max_chunk == max_chunk,
    {
        Framer { pending: Vec::new(), min_chunk, max_chunk }
    }

    /// Cut the pending samples into frames while the rule allows.
    fn cut(&mut self, end: bool) -> (frames: Vec<Vec<i16>>)
        requires
            old(self).max_chunk > 0,
        ensures
            (frame_views(frames@), final(self).pending@) == split_frames(
                old(self).pending@,
                old(self).min_chunk as nat,
                old(self).max_chunk as nat,
                end,
            ),
            final(self).min_chunk == old(self).min_chunk,
            final(self).max_chunk == old(self).max_chunk,
    {
        let ghost s = self.pending@;
        let min = self.min_chunk;
        let max = self.max_chunk;
        let len = self.pending.len();
        let mut frames: Vec<Vec<i16>> = Vec::new();
        let mut start: usize = 0;
        proof {
            assert(s.skip(0) =~= s);
            assert(frame_views(frames@) + split_frames(s.skip(0), min as nat, max as nat, end).0
                =~= split_frames(s, min as nat, max as nat, end).0);
        }
        while start < len && (end || len - start >= min)
            invariant
                s == self.pending@,
                len == s.len(),
                min == self.min_chunk,
                max == self.max_chunk,
                max > 0,
                start <= len,
                frame_views(frames@) + split_frames(s.skip(start as int), min as nat, max as nat, end).0
                    == split_frames(s, min as nat, max as nat, end).0,
                split_frames(s.skip(start as int), min as nat, max as nat, end).1 == split_frames(
                    s,
                    min as nat,
                    max as nat,
                    end,
                ).1,
            decreases len - start,
        {
            let left = len - start;
            let n = if left < max {
                left
            } else {
                max
            };
            let mut frame: Vec<i16> = Vec::new();
            let mut k: usize = 0;
            while k < n
                invariant
                    s == self.pending@,
                    len == s.len(),
                    start + n <= len,
                    k <= n,
                    frame@ == s.subrange(start as int, start + k),
                decreases n - k,
            {
                frame.push(self.pending[start + k]);
                k = k + 1;
                proof {
                    assert(frame@ =~= s.subrange(start as int, start + k));
                }
            }
            proof {
                let t = s.skip(start as int);
                lemma_split_step(t, min as nat, max as nat, end, n as nat);
                assert(t.take(n as int) =~= frame@);
                assert(t.skip(n as int) =~= s.skip(start + n));
                let ghost old_frames = frames@;
                assert(frame_views(old_frames.push(frame)) =~= frame_views(old_frames).push(frame@));
            }
            let ghost old_frames = frames@;
            frames.push(frame);
            proof {
                assert(frame_views(frames@) =~= frame_views(old_frames).push(frames@.last()@));
                let t = s.skip(start as int);
                let rest = split_frames(s.skip(start + n), min as nat, max as nat, end).0;
                assert(frame_views(frames@) + rest =~= frame_views(old_frames) + (seq![t.take(n as int)]
                    + rest));
            }
            start = start + n;
        }
        proof {
            let t = s.skip(start as int);
            assert(split_frames(t, min as nat, max as nat, end) == (Seq::<Seq<i16>>::empty(), t));
            assert(frame_views(frames@) + Seq::<Seq<i16>>::empty() =~= frame_views(frames@));
        }
        let mut rest: Vec<i16> = Vec::new();
        let mut k: usize = start;
        while k < len
            invariant
                s == self.pending@,
                len == s.len(),
                start <= k <= len,
                rest@ == s.subrange(start as int, k as int),
            decreases len - k,
        {
            rest.push(self.pending[k]);
            k = k + 1;
            proof {
                assert(rest@ =~= s.subrange(start as int, k as int));
            }
        }
        proof {
            assert(rest@ =~= s.skip(start as int));
        }
        self.pending = rest;
        frames
    }

    /// Queue a chunk of audio, returning the frames that are ready: while
    /// at least `min_chunk` samples wait, frames of at most `max_chunk` go
    /// out, front first.
    pub fn push(&mut self, samples: &[i16]) -> (frames: Vec<Vec<i16>>)
        requires
            old(self).max_chunk > 0,
        ensures
            (frame_views(frames@), final(self).pending@) == split_frames(
                old(self).pending@ + samples@,
                old(self).min_chunk as nat,
                old(self).max_chunk as nat,
                false,
            ),
            final(self).min_chunk == old(self).min_chunk,
            final(self).max_chunk == old(self).max_chunk,
    {
        let mut i: usize = 0;
        let ghost p0 = self.pending@;
        while i < samples.len()
            invariant
                i <= samples@.len(),
                self.pending@ == p0 + samples@.take(i as int),
                self.min_chunk == old(self).min_chunk,
                self.max_chunk == old(self).max_chunk,
                p0 == old(self).pending@,
            decreases samples@.len() - i,
        {
            self.pending.push(samples[i]);
            i = i + 1;
            proof {
                assert(self.pending@ =~= p0 + samples@.take(i as int));
            }
        }
        proof {
            assert(samples@.take(samples@.len() as int) =~= samples@);
        }
        self.cut(false)
    }

    /// End of the audio: a short tail is padded with silence up to
    /// `min_chunk` rather than dropped (it holds the last syllable, and a
    /// short frame would be rejected), then everything goes out.
    pub fn finish(&mut self) -> (frames: Vec<Vec<i16>>)
        requires
            old(self).max_chunk > 0,
        ensures
            (frame_views(frames@), final(self).pending@) == split_frames(
                padded(old(self).pending@, old(self).min_chunk as nat),
                old(self).min_chunk as nat,
                old(self).max_chunk as nat,
                true,
            ),
            final(self).pending@.len() == 0,
    {
        if self.pending.len() > 0 {
            let ghost p0 = self.pending@;
            while self.pending.len() < self.min_chunk
                invariant
                    self.pending@.len() > 0,
                    self.pending@.len() <= if p0.len() < self.min_chunk {
                        self.min_chunk as nat
                    } else {
                        p0.len()
                    },
                    self.pending@ == p0 + Seq::new((self.pending@.len() - p0.len()) as nat, |i: int| 0i16),
                    p0 == old(self).pending@,
                    p0.len() > 0,
                    self.min_chunk == old(self).min_chunk,
                    self.max_chunk == old(self).max_chunk,
                decreases self.min_chunk - self.pending@.len(),
            {
                let ghost before = self.pending@;
                self.pending.push(0);
                proof {
                    assert(self.pending@ =~= p0 + Seq::new((self.pending@.len() - p0.len()) as nat, |i: int| 0i16));
                }
            }
            proof {
                assert(self.pending@ =~= padded(p0, self.min_chunk as nat));
            }
        } else {
            proof {
                assert(self.pending@ =~= padded(old(self).pending@, self.min_chunk as nat));
            }
        }
        let frames = self.cut(true);
        proof {
            lemma_split_end_drains(padded(old(self).pending@, self.min_chunk as nat), self.min_chunk as nat, self.max_chunk as nat);
        }
        frames
    }
}

/// `s` padded with zero samples to at least `min` samples, unless it is empty.
pub open spec fn padded(s: Seq<i16>, min: nat) -> Seq<i16> {
    if s.len() > 0 && s.len() < min {
        s + Seq::new((min - s.len()) as nat, |i: int| 0i16)
    } else {
        s
    }
}

proof fn lemma_split_end_drains(s: Seq<i16>, min: nat, max: nat)
    requires
        max > 0,
    ensures
        split_frames(s, min, max, true).1.len() == 0,
    decreases s.len(),
{
    if s.len() > 0 {
        let n = if s.len() < max {
            s.len()
        } else {
            max
        };
        lemma_split_end_drains(s.skip(n as int), min, max);
    }
}

/// Framing keeps every sample, in order, and respects the frame limits:
/// the frames followed by what is left are exactly the input; no frame is
/// empty or longer than `max`; before the end no frame is shorter than
/// `min` (or `max`, when that is smaller) and less than `min` samples are
/// left waiting; at the end nothing is left.
pub proof fn law_framing_preserves_audio(s: Seq<i16>, min: nat, max: nat, end: bool)
    requires
        max > 0,
    ensures
        flatten(split_frames(s, min, max, end).0) + split_frames(s, min, max, end).1 == s,
        forall|i: int|
            0 <= i < split_frames(s, min, max, end).0.len() ==> 0 < (#[trigger] split_frames(
                s,
                min,
                max,
                end,
            ).0[i]).len() <= max,
        !end ==> forall|i: int|
            0 <= i < split_frames(s, min, max, end).0.len() ==> (#[trigger] split_frames(
                s,
                min,
                max,
                end,
            ).0[i]).len() >= (if min < max {
                min
            } else {
                max
            }),
        !end ==> split_frames(s, min, max, end).1.len() < min || split_frames(s, min, max, end).1.len() == 0,
        end ==> split_frames(s, min, max, end).1.len() == 0,
    decreases s.len(),
{
    if max > 0 && s.len() > 0 && (end || s.len() >= min) {
        let n = if s.len() < max {
            s.len()
        } else {
            max
        };
        law_framing_preserves_audio(s.skip(n as int), min, max, end);
        let rest = split_frames(s.skip(n as int), min, max, end);
        let fs = seq![s.take(n as int)] + rest.0;
        assert(fs[0] == s.take(n as int));
        assert(fs.drop_first() =~= rest.0);
        assert(flatten(fs) == s.take(n as int) + flatten(rest.0));
        assert(s.take(n as int) + flatten(rest.0) + rest.1 =~= s.take(n as int) + (flatten(rest.0) + rest.1));
        assert(s.take(n as int) + s.skip(n as int) =~= s);
        assert forall|i: int| 0 <= i < fs.len() implies 0 < (#[trigger] fs[i]).len() <= max by {
            if i > 0 {
                assert(fs[i] == rest.0[i - 1]);
            }
        }
        if !end {
            assert forall|i: int| 0 <= i < fs.len() implies (#[trigger] fs[i]).len() >= (if min < max {
                min
            } else {
                max
            }) by {
                if i > 0 {
                    assert(fs[i] == rest.0[i - 1]);
                }
            }
        }
    } else {
        assert(flatten(Seq::<Seq<i16>>::empty()) + s =~= s);
    }
}

// ── PCM bytes ────────────────────────────────────────────────────────────────

/// The little-endian bytes of the 16-bit two's-complement samples `s`.
pub open spec fn pcm16_le(s: Seq<i16>) -> Seq<u8> {
    Seq::new(
        2 * s.len(),
        |k: int|
            if k % 2 == 0 {
                (s[k / 2] as u16 % 256) as u8
            } else {
                (s[k / 2] as u16 / 256) as u8
            },
    )
}

/// Raw 16-bit little-endian PCM (no header) for a WebSocket frame.
pub fn pcm_to_bytes(samples: &[i16]) -> (r: Vec<u8>)
    requires
        2 * samples@.len() <= usize::MAX,
    ensures
        r@ == pcm16_le(samples@),
{
    let mut out: Vec<u8> = Vec::new();
    let mut i: usize = 0;
    while i < samples.len()
        invariant
            i <= samples@.len(),
            2 * samples@.len() <= usize::MAX,
            out@ == pcm16_le(samples@.take(i as int)),
        decreases samples@.len() - i,
    {
        let u = samples[i] as u16;
        out.push((u % 256) as u8);
        out.push((u / 256) as u8);
        i = i + 1;
        proof {
            assert(out@ =~= pcm16_le(samples@.take(i as int)));
        }
    }
    proof {
        assert(samples@.take(samples@.len() as int) =~= samples@);
    }
    out
}

} // verus!
