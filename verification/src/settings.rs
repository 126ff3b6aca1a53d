//! The rules behind the settings window: which list position stands for
//! which provider or keyboard mode, how the vocabulary editor's text becomes
//! terms, the token-budget readout, and when the vocabulary controls do
//! anything at all.

use vstd::prelude::*;

use crate::config::{clean_terms, estimate_prompt_tokens, total_cost, VOCABULARY_TOKEN_LIMIT};
use crate::text::{
    decimal, decimal_string, push_str, str_eq, string_from_chars, to_string, trim, trim_seq, views,
};

verus! {

// ── List positions ───────────────────────────────────────────────────────────

/// The position of a transcription provider in the provider list.
pub open spec fn provider_idx_spec(p: Seq<char>) -> u32 {
    if p == "cohere"@ {
        1
    } else if p == "custom"@ {
        2
    } else {
        0
    }
}

/// The transcription provider at a list position.
pub open spec fn provider_str_spec(idx: u32) -> Seq<char> {
    if idx == 1 {
        "cohere"@
    } else if idx == 2 {
        "custom"@
    } else {
        "groq"@
    }
}

/// The list position of transcription provider `p`; unknown ones show as
/// Groq.
pub fn provider_idx(p: &str) -> (r: u32)
    ensures
        r == provider_idx_spec(p@),
{
    if str_eq(p, "cohere") {
        1
    } else if str_eq(p, "custom") {
        2
    } else {
        0
    }
}

/// The transcription provider at list position `idx`.
pub fn provider_str(idx: u32) -> (r: &'static str)
    ensures
        r@ == provider_str_spec(idx),
{
    if idx == 1 {
        "cohere"
    } else if idx == 2 {
        "custom"
    } else {
        "groq"
    }
}

/// The position of a post-processing provider in its list.
pub open spec fn postprocess_provider_idx_spec(p: Seq<char>) -> u32 {
    if p == "gemini"@ {
        1
    } else if p == "custom"@ {
        2
    } else {
        0
    }
}

/// The post-processing provider at a list position.
pub open spec fn postprocess_provider_str_spec(idx: u32) -> Seq<char> {
    if idx == 1 {
        "gemini"@
    } else if idx == 2 {
        "custom"@
    } else {
        "groq"@
    }
}

/// The list position of post-processing provider `p`; unknown ones show as
/// Groq.
pub fn postprocess_provider_idx(p: &str) -> (r: u32)
    ensures
        r == postprocess_provider_idx_spec(p@),
{
    if str_eq(p, "gemini") {
        1
    } else if str_eq(p, "custom") {
        2
    } else {
        0
    }
}

/// The post-processing provider at list position `idx`.
pub fn postprocess_provider_str(idx: u32) -> (r: &'static str)
    ensures
        r@ == postprocess_provider_str_spec(idx),
{
    if idx == 1 {
        "gemini"
    } else if idx == 2 {
        "custom"
    } else {
        "groq"
    }
}

/// The overlay's keyboard modes, in list order.
pub open spec fn keyboard_modes() -> Seq<Seq<char>> {
    seq!["none"@, "ondemand"@, "exclusive"@]
}

/// The list position of a keyboard mode; an unknown mode shows as
/// "ondemand".
pub open spec fn keyboard_mode_idx_spec(m: Seq<char>) -> u32 {
    if m == "none"@ {
        0
    } else if m == "ondemand"@ {
        1
    } else if m == "exclusive"@ {
        2
    } else {
        1
    }
}

/// The list position of keyboard mode `m`.
pub fn keyboard_mode_idx(m: &str) -> (r: u32)
    ensures
        r == keyboard_mode_idx_spec(m@),
{
    if str_eq(m, "none") {
        0
    } else if str_eq(m, "ondemand") {
        1
    } else if str_eq(m, "exclusive") {
        2
    } else {
        1
    }
}

/// The keyboard mode at list position `idx`; "ondemand" past the end.
pub fn keyboard_mode_at(idx: u32) -> (r: &'static str)
    ensures
        idx < 3 ==> r@ == keyboard_modes()[idx as int],
        idx >= 3 ==> r@ == "ondemand"@,
{
    if idx == 0 {
        "none"
    } else if idx == 1 {
        "ondemand"
    } else if idx == 2 {
        "exclusive"
    } else {
        "ondemand"
    }
}

proof fn lemma_distinct_names()
    ensures
        "groq"@ != "cohere"@,
        "groq"@ != "custom"@,
        "cohere"@ != "custom"@,
        "groq"@ != "gemini"@,
        "gemini"@ != "custom"@,
        "none"@ != "ondemand"@,
        "none"@ != "exclusive"@,
        "ondemand"@ != "exclusive"@,
{
    reveal_strlit("groq");
    reveal_strlit("cohere");
    reveal_strlit("custom");
    reveal_strlit("gemini");
    reveal_strlit("none");
    reveal_strlit("ondemand");
    reveal_strlit("exclusive");
    assert("groq"@[0] != "cohere"@[0]);
    assert("groq"@[0] != "custom"@[0]);
    assert("cohere"@[1] != "custom"@[1]);
    assert("groq"@[1] != "gemini"@[1]);
    assert("gemini"@[0] != "custom"@[0]);
    assert("none"@[0] != "ondemand"@[0]);
    assert("none"@[0] != "exclusive"@[0]);
    assert("ondemand"@[0] != "exclusive"@[0]);
}

/// Choosing a list entry and reading the setting back selects the same
/// entry, and every known setting survives being shown and chosen again.
pub proof fn law_list_positions_round_trip(idx: u32, p: Seq<char>)
    ensures
        idx < 3 ==> provider_idx_spec(provider_str_spec(idx)) == idx,
        idx < 3 ==> postprocess_provider_idx_spec(postprocess_provider_str_spec(idx)) == idx,
        idx < 3 ==> keyboard_mode_idx_spec(keyboard_modes()[idx as int]) == idx,
        (p == "groq"@ || p == "cohere"@ || p == "custom"@) ==> provider_str_spec(
            provider_idx_spec(p),
        ) == p,
        (p == "groq"@ || p == "gemini"@ || p == "custom"@) ==> postprocess_provider_str_spec(
            postprocess_provider_idx_spec(p),
        ) == p,
{
    lemma_distinct_names();
}

// ── The vocabulary editor ────────────────────────────────────────────────────

/// The lines of `s` (split at each line feed), continuing from a partly
/// read line `cur` and the lines `acc` already found.
pub open spec fn lines_from(s: Seq<char>, cur: Seq<char>, acc: Seq<Seq<char>>) -> Seq<Seq<char>>
    decreases s.len(),
{
    if s.len() == 0 {
        acc.push(cur)
    } else if s[0] == '\n' {
        lines_from(s.drop_first(), Seq::empty(), acc.push(cur))
    } else {
        lines_from(s.drop_first(), cur.push(s[0]), acc)
    }
}

/// The pieces of `s` between line feeds.
pub open spec fn split_lines(s: Seq<char>) -> Seq<Seq<char>> {
    lines_from(s, Seq::empty(), Seq::empty())
}

/// The terms typed into the vocabulary editor: one per line, trimmed,
/// blank lines dropped.
pub open spec fn parse_terms_spec(text: Seq<char>) -> Seq<Seq<char>> {
    clean_terms(split_lines(text))
}

proof fn lemma_clean_terms_push(v: Seq<Seq<char>>, x: Seq<char>)
    ensures
        clean_terms(v.push(x)) == if trim_seq(x).len() > 0 {
            clean_terms(v).push(trim_seq(x))
        } else {
            clean_terms(v)
        },
    decreases v.len(),
{
    if v.len() == 0 {
        assert(v.push(x).drop_first() =~= Seq::<Seq<char>>::empty());
        assert(v.push(x)[0] == x);
        assert(clean_terms(Seq::<Seq<char>>::empty()) == Seq::<Seq<char>>::empty());
        if trim_seq(x).len() > 0 {
            assert(clean_terms(v.push(x)) =~= clean_terms(v).push(trim_seq(x)));
        }
    } else {
        assert(v.push(x).drop_first() =~= v.drop_first().push(x));
        assert(v.push(x)[0] == v[0]);
        lemma_clean_terms_push(v.drop_first(), x);
        if trim_seq(x).len() > 0 {
            if trim_seq(v[0]).len() > 0 {
                assert(clean_terms(v.push(x)) =~= clean_terms(v).push(trim_seq(x)));
            }
        }
    }
}

/// Add the trimmed line to `terms` unless it is blank.
fn flush_line(terms: &mut Vec<String>, line: &Vec<char>)
    ensures
        views(final(terms)@) == if trim_seq(line@).len() > 0 {
            views(old(terms)@).push(trim_seq(line@))
        } else {
            views(old(terms)@)
        },
{
    let s = string_from_chars(line.as_slice());
    let t = trim(s.as_str());
    if t.unicode_len() > 0 {
        let ghost before = terms@;
        terms.push(to_string(t));
        proof {
            assert(views(terms@) =~= views(before).push(trim_seq(line@)));
        }
    }
}

/// The vocabulary terms in the editor's text: one per line, trimmed, blank
/// lines dropped.
pub fn parse_terms(text: &str) -> (r: Vec<String>)
    ensures
        views(r@) == parse_terms_spec(text@),
{
    let n = text.unicode_len();
    let mut terms: Vec<String> = Vec::new();
    let mut cur: Vec<char> = Vec::new();
    let ghost mut acc: Seq<Seq<char>> = Seq::empty();
    proof {
        assert(text@.skip(0) =~= text@);
        assert(cur@ =~= Seq::<char>::empty());
        assert(views(terms@) =~= clean_terms(acc));
    }
    let mut i: usize = 0;
    while i < n
        invariant
            n == text@.len(),
            i <= n,
            split_lines(text@) == lines_from(text@.skip(i as int), cur@, acc),
            views(terms@) == clean_terms(acc),
        decreases n - i,
    {
        let c = text.get_char(i);
        proof {
            assert(text@.skip(i as int).drop_first() =~= text@.skip(i + 1));
            assert(text@.skip(i as int)[0] == c);
        }
        if c == '\n' {
            flush_line(&mut terms, &cur);
            proof {
                lemma_clean_terms_push(acc, cur@);
                acc = acc.push(cur@);
            }
            cur = Vec::new();
            proof {
                assert(cur@ =~= Seq::<char>::empty());
            }
        } else {
            cur.push(c);
        }
        i = i + 1;
    }
    proof {
        assert(text@.skip(n as int) =~= Seq::<char>::empty());
        lemma_clean_terms_push(acc, cur@);
    }
    flush_line(&mut terms, &cur);
    terms
}

/// The budget readout under the vocabulary editor: "3 terms · ~12/224
/// tokens".
pub open spec fn budget_label_spec(count: nat, tokens: nat) -> Seq<char> {
    decimal(count) + (if count == 1 {
        " term"@
    } else {
        " terms"@
    }) + " \u{00B7} ~"@ + decimal(tokens) + "/"@ + decimal(VOCABULARY_TOKEN_LIMIT as nat)
        + " tokens"@
}

/// The readout for `terms` and whether the estimate is over Whisper's
/// budget (then terms past it are dropped from the transcription hint).
pub fn vocabulary_budget(terms: &[String]) -> (r: (String, bool))
    ensures
        ({
            let tokens = estimate_prompt_tokens_spec(views(terms@));
            &&& r.0@ == budget_label_spec(terms@.len(), tokens)
            &&& r.1 == (tokens > VOCABULARY_TOKEN_LIMIT)
        }),
{
    let tokens = estimate_prompt_tokens(terms);
    let n = terms.len();
    let mut label = decimal_string(n as u64);
    if n == 1 {
        push_str(&mut label, " term");
    } else {
        push_str(&mut label, " terms");
    }
    push_str(&mut label, " \u{00B7} ~");
    push_str(&mut label, decimal_string(tokens as u64).as_str());
    push_str(&mut label, "/");
    push_str(&mut label, decimal_string(VOCABULARY_TOKEN_LIMIT as u64).as_str());
    push_str(&mut label, " tokens");
    proof {
        assert(label@ =~= budget_label_spec(terms@.len(), tokens as nat));
    }
    (label, tokens > VOCABULARY_TOKEN_LIMIT)
}

/// The token estimate of a vocabulary, as `estimate_prompt_tokens`
/// reports it.
pub open spec fn estimate_prompt_tokens_spec(v: Seq<Seq<char>>) -> nat {
    if total_cost(clean_terms(v)) <= usize::MAX {
        total_cost(clean_terms(v))
    } else {
        usize::MAX as nat
    }
}

/// Whether the vocabulary controls do anything, and whether to show the
/// note about Cohere: Cohere takes no spelling hint, so the terms only
/// matter there through post-processing.
pub fn vocabulary_usefulness(provider: &str, postprocess_enabled: bool) -> (r: (bool, bool))
    ensures
        r.0 == (provider@ != "cohere"@ || postprocess_enabled),
        r.1 == (provider@ == "cohere"@ && postprocess_enabled),
{
    let cohere = str_eq(provider, "cohere");
    (!cohere || postprocess_enabled, cohere && postprocess_enabled)
}

} // verus!
