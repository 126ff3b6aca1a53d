//! The rules tying streaming, post-processing and direct injection
//! together. Streaming and post-processing exclude each other, and when both
//! are set post-processing wins, as in the daemon. Streaming requires direct
//! injection: the daemon refuses to stream without it.

use vstd::prelude::*;

verus! {

/// The three coupled settings.
#[derive(Debug, Clone, Copy, PartialEq, Eq)]
pub struct Coupled {
    pub streaming: bool,
    pub postprocess: bool,
    pub direct_injection: bool,
}

/// Whether the settings agree with what the daemon will do.
pub open spec fn coherent(c: Coupled) -> bool {
    &&& !(c.streaming && c.postprocess)
    &&& (c.streaming ==> c.direct_injection)
}

/// Note for streaming dropped in favour of post-processing at startup.
pub const NOTE_STREAMING_OFF_FOR_POSTPROCESS: &'static str =
    "Streaming turned off \u{2014} post-processing was also on and takes priority";

/// Note for direct injection turned on at startup for streaming.
pub const NOTE_DIRECT_ON_FOR_STREAMING: &'static str =
    "Direct injection turned on \u{2014} streaming requires it";

/// Toast for post-processing turned off because streaming was turned on.
pub const NOTE_POSTPROCESS_OFF: &'static str =
    "Post-processing turned off \u{2014} it can't be combined with streaming";

/// Toast for streaming turned off because post-processing was turned on.
pub const NOTE_STREAMING_OFF_BY_POSTPROCESS: &'static str =
    "Streaming turned off \u{2014} it can't be combined with post-processing";

/// Toast for streaming turned off because direct injection was turned off.
pub const NOTE_STREAMING_OFF_BY_DIRECT: &'static str =
    "Streaming turned off \u{2014} it requires direct injection";

/// The settings after startup normalisation: streaming yields to
/// post-processing, then streaming turns direct injection on.
pub open spec fn reconcile_spec(c: Coupled) -> Coupled {
    let streaming = c.streaming && !c.postprocess;
    Coupled {
        streaming,
        postprocess: c.postprocess,
        direct_injection: c.direct_injection || streaming,
    }
}

/// The notes of startup normalisation, one per change.
pub open spec fn reconcile_notes(c: Coupled) -> Seq<Seq<char>> {
    let first: Seq<Seq<char>> = if c.streaming && c.postprocess {
        seq![NOTE_STREAMING_OFF_FOR_POSTPROCESS@]
    } else {
        Seq::empty()
    };
    if c.streaming && !c.postprocess && !c.direct_injection {
        first.push(NOTE_DIRECT_ON_FOR_STREAMING@)
    } else {
        first
    }
}

/// Normalise contradictory settings before any widget is built, so the
/// rows start out showing what the daemon will actually do. Returns the
/// settings and a note per change, for the caller to surface.
pub fn reconcile_startup(c: Coupled) -> (r: (Coupled, Vec<&'static str>))
    ensures
        r.0 == reconcile_spec(c),
        r.1@.map_values(|s: &'static str| s@) == reconcile_notes(c),
{
    let mut notes: Vec<&'static str> = Vec::new();
    let mut streaming = c.streaming;
    let mut direct = c.direct_injection;
    if streaming && c.postprocess {
        streaming = false;
        notes.push(NOTE_STREAMING_OFF_FOR_POSTPROCESS);
    }
    if streaming && !direct {
        direct = true;
        notes.push(NOTE_DIRECT_ON_FOR_STREAMING);
    }
    proof {
        assert(notes@.map_values(|s: &'static str| s@) =~= reconcile_notes(c));
    }
    (Coupled { streaming, postprocess: c.postprocess, direct_injection: direct }, notes)
}

/// Streaming switched on or off. On, it turns post-processing off (with a
/// toast when that was on) and direct injection on.
pub open spec fn streaming_toggled_spec(c: Coupled, enabled: bool) -> (Coupled, Option<Seq<char>>) {
    if !enabled {
        (Coupled { streaming: false, ..c }, None)
    } else {
        (
            Coupled { streaming: true, postprocess: false, direct_injection: true },
            if c.postprocess {
                Some(NOTE_POSTPROCESS_OFF@)
            } else {
                None
            },
        )
    }
}

/// Post-processing switched on or off. On, it turns streaming off (with a
/// toast when that was on).
pub open spec fn postprocess_toggled_spec(c: Coupled, enabled: bool) -> (Coupled, Option<Seq<char>>) {
    if enabled && c.streaming {
        (Coupled { postprocess: true, streaming: false, ..c }, Some(NOTE_STREAMING_OFF_BY_POSTPROCESS@))
    } else {
        (Coupled { postprocess: enabled, ..c }, None)
    }
}

/// Direct injection switched on or off. Off, it turns streaming off (with a
/// toast when that was on).
pub open spec fn direct_toggled_spec(c: Coupled, enabled: bool) -> (Coupled, Option<Seq<char>>) {
    if !enabled && c.streaming {
        (Coupled { direct_injection: false, streaming: false, ..c }, Some(NOTE_STREAMING_OFF_BY_DIRECT@))
    } else {
        (Coupled { direct_injection: enabled, ..c }, None)
    }
}

/// The abstract value of an optional note.
pub open spec fn note_view(n: Option<&'static str>) -> Option<Seq<char>> {
    match n {
        Some(s) => Some(s@),
        None => None,
    }
}

impl Coupled {
    /// The settings after the streaming switch changed, and the toast to
    /// show, if any.
    pub fn streaming_toggled(self, enabled: bool) -> (r: (Coupled, Option<&'static str>))
        ensures
            (r.0, note_view(r.1)) == streaming_toggled_spec(self, enabled),
    {
        if !enabled {
            (Coupled { streaming: false, ..self }, None)
        } else {
            let note = if self.postprocess {
                Some(NOTE_POSTPROCESS_OFF)
            } else {
                None
            };
            (Coupled { streaming: true, postprocess: false, direct_injection: true }, note)
        }
    }

    /// The settings after the post-processing switch changed, and the toast
    /// to show, if any.
    pub fn postprocess_toggled(self, enabled: bool) -> (r: (Coupled, Option<&'static str>))
        ensures
            (r.0, note_view(r.1)) == postprocess_toggled_spec(self, enabled),
    {
        if enabled && self.streaming {
            (
                Coupled { postprocess: true, streaming: false, ..self },
                Some(NOTE_STREAMING_OFF_BY_POSTPROCESS),
            )
        } else {
            (Coupled { postprocess: enabled, ..self }, None)
        }
    }

    /// The settings after the direct-injection switch changed, and the
    /// toast to show, if any.
    pub fn direct_toggled(self, enabled: bool) -> (r: (Coupled, Option<&'static str>))
        ensures
            (r.0, note_view(r.1)) == direct_toggled_spec(self, enabled),
    {
        if !enabled && self.streaming {
            (
                Coupled { direct_injection: false, streaming: false, ..self },
                Some(NOTE_STREAMING_OFF_BY_DIRECT),
            )
        } else {
            (Coupled { direct_injection: enabled, ..self }, None)
        }
    }
}

/// Startup normalisation leaves the settings coherent, and changes nothing
/// (with no note) where they already were.
pub proof fn law_startup_makes_settings_coherent(c: Coupled)
    ensures
        coherent(reconcile_spec(c)),
        coherent(c) ==> reconcile_spec(c) == c && reconcile_notes(c).len() == 0,
{
}

/// Every switch keeps coherent settings coherent, and the switch itself
/// ends in the position the user chose.
pub proof fn law_switches_keep_settings_coherent(c: Coupled, enabled: bool)
    requires
        coherent(c),
    ensures
        coherent(streaming_toggled_spec(c, enabled).0),
        coherent(postprocess_toggled_spec(c, enabled).0),
        coherent(direct_toggled_spec(c, enabled).0),
        streaming_toggled_spec(c, enabled).0.streaming == enabled,
        postprocess_toggled_spec(c, enabled).0.postprocess == enabled,
        direct_toggled_spec(c, enabled).0.direct_injection == enabled,
{
}

} // verus!
