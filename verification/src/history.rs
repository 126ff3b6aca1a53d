//! The transcription history as the settings app shows it: entries, search
//! matching and `LIKE` escaping, which rows are visible, how a row is laid
//! out, relative ages, WAV headers, and the confinement of recording paths.

use vstd::prelude::*;

use crate::text::{
    contains, contains_seq, decimal, decimal_string, push_str, str_eq, to_lowercase, to_string,
    unicode_lowercase,
};

verus! {

/// One row of the history table.
#[derive(Debug, Clone, PartialEq, Eq)]
pub struct HistoryEntry {
    pub id: i64,
    /// Seconds since the Unix epoch; 0 when unknown.
    pub timestamp: i64,
    pub text: String,
    /// "ok" or "failed".
    pub status: String,
    pub error: Option<String>,
    pub wav_path: Option<String>,
    /// The raw transcript before post-processing; `None` when it was off.
    pub text_original: Option<String>,
}

/// The abstract value of an optional string.
pub open spec fn opt_seq(o: Option<String>) -> Option<Seq<char>> {
    match o {
        Some(s) => Some(s@),
        None => None,
    }
}

/// Whether an optional text, lowercased, contains `needle`.
pub open spec fn opt_contains(o: Option<Seq<char>>, needle: Seq<char>) -> bool {
    match o {
        Some(s) => contains_seq(unicode_lowercase(s), needle),
        None => false,
    }
}

impl HistoryEntry {
    /// Whether the transcription failed.
    pub fn failed(&self) -> (r: bool)
        ensures
            r == (self.status@ == "failed"@),
    {
        str_eq(self.status.as_str(), "failed")
    }

    /// Whether the entry matches an already lowercased search needle: every
    /// entry matches the empty needle; otherwise its text, original text or
    /// error must contain the needle, compared in lowercase.
    pub open spec fn matches_spec(&self, needle: Seq<char>) -> bool {
        ||| needle.len() == 0
        ||| contains_seq(unicode_lowercase(self.text@), needle)
        ||| opt_contains(opt_seq(self.text_original), needle)
        ||| opt_contains(opt_seq(self.error), needle)
    }

    /// Whether the entry matches the lowercased search `needle`.
    pub fn matches(&self, needle: &str) -> (r: bool)
        ensures
            r == self.matches_spec(needle@),
    {
        if needle.unicode_len() == 0 {
            return true;
        }
        if contains(to_lowercase(self.text.as_str()).as_str(), needle) {
            return true;
        }
        let in_original = match &self.text_original {
            Some(t) => contains(to_lowercase(t.as_str()).as_str(), needle),
            None => false,
        };
        if in_original {
            return true;
        }
        match &self.error {
            Some(e) => contains(to_lowercase(e.as_str()).as_str(), needle),
            None => false,
        }
    }
}

// ── LIKE patterns ────────────────────────────────────────────────────────────

/// Whether SQL `LIKE` gives `c` a meaning: the two wildcards and the escape
/// character.
pub open spec fn like_special(c: char) -> bool {
    c == '%' || c == '_' || c == '\\'
}

/// `s` with a backslash before every `%`, `_` and backslash.
pub open spec fn escape_like_spec(s: Seq<char>) -> Seq<char>
    decreases s.len(),
{
    if s.len() == 0 {
        Seq::empty()
    } else {
        let head = if like_special(s[0]) {
            seq!['\\', s[0]]
        } else {
            seq![s[0]]
        };
        head + escape_like_spec(s.drop_first())
    }
}

proof fn lemma_escape_like_push(s: Seq<char>, c: char)
    ensures
        escape_like_spec(s.push(c)) == escape_like_spec(s) + (if like_special(c) {
            seq!['\\', c]
        } else {
            seq![c]
        }),
    decreases s.len(),
{
    if s.len() == 0 {
        assert(s.push(c).drop_first() =~= Seq::<char>::empty());
        assert(s.push(c)[0] == c);
        assert(escape_like_spec(Seq::<char>::empty()) == Seq::<char>::empty());
        assert(escape_like_spec(s) == Seq::<char>::empty());
        assert(escape_like_spec(s.push(c)) =~= escape_like_spec(s) + (if like_special(c) {
            seq!['\\', c]
        } else {
            seq![c]
        }));
    } else {
        assert(s.push(c).drop_first() =~= s.drop_first().push(c));
        assert(s.push(c)[0] == s[0]);
        lemma_escape_like_push(s.drop_first(), c);
        assert(escape_like_spec(s.push(c)) =~= escape_like_spec(s) + (if like_special(c) {
            seq!['\\', c]
        } else {
            seq![c]
        }));
    }
}

/// Make `%`, `_` and the escape character itself match literally.
pub fn escape_like(s: &str) -> (r: String)
    ensures
        r@ == escape_like_spec(s@),
{
    let mut out = String::new();
    let mut i: usize = 0;
    let n = s.unicode_len();
    proof {
        assert(s@.take(0) =~= Seq::<char>::empty());
    }
    while i < n
        invariant
            n == s@.len(),
            i <= n,
            out@ == escape_like_spec(s@.take(i as int)),
        decreases n - i,
    {
        let c = s.get_char(i);
        proof {
            assert(s@.take(i + 1) =~= s@.take(i as int).push(c));
            lemma_escape_like_push(s@.take(i as int), c);
        }
        if c == '%' || c == '_' || c == '\\' {
            out.push('\\');
        }
        out.push(c);
        i = i + 1;
    }
    proof {
        assert(s@.take(n as int) =~= s@);
    }
    out
}

/// `s` with each backslash-escape resolved: a backslash and the character
/// after it read as that character.
pub open spec fn unescape_like_spec(s: Seq<char>) -> Seq<char>
    decreases s.len(),
{
    if s.len() == 0 {
        Seq::empty()
    } else if s[0] == '\\' && s.len() >= 2 {
        seq![s[1]] + unescape_like_spec(s.skip(2))
    } else {
        seq![s[0]] + unescape_like_spec(s.drop_first())
    }
}

/// Whether `LIKE` reads every character of the pattern literally: each
/// wildcard and backslash comes escaped.
pub open spec fn all_literal(s: Seq<char>) -> bool
    decreases s.len(),
{
    if s.len() == 0 {
        true
    } else if s[0] == '\\' {
        s.len() >= 2 && all_literal(s.skip(2))
    } else {
        !like_special(s[0]) && all_literal(s.drop_first())
    }
}

/// An escaped search text matches only itself: `LIKE` reads every
/// character of it literally, and resolving the escapes gives back the text.
pub proof fn law_escaped_text_matches_literally(s: Seq<char>)
    ensures
        all_literal(escape_like_spec(s)),
        unescape_like_spec(escape_like_spec(s)) == s,
    decreases s.len(),
{
    if s.len() > 0 {
        let rest = s.drop_first();
        law_escaped_text_matches_literally(rest);
        let e = escape_like_spec(s);
        let er = escape_like_spec(rest);
        if like_special(s[0]) {
            assert(e == seq!['\\', s[0]] + er);
            assert(e[0] == '\\');
            assert(e.skip(2) =~= er);
            assert(e[1] == s[0]);
        } else {
            assert(e == seq![s[0]] + er);
            assert(e[0] == s[0]);
            assert(e.drop_first() =~= er);
        }
        assert(seq![s[0]] + rest =~= s);
    }
}

// ── The visible list ─────────────────────────────────────────────────────────

/// Which part of the history page shows.
#[derive(Debug, Clone, Copy, PartialEq, Eq)]
pub enum ListPage {
    /// Nothing left once pending deletions are hidden.
    Empty,
    /// Entries exist but none matches the search.
    NoResults,
    List,
}

/// Whether `id` is among `ids`.
pub open spec fn has_id(ids: Seq<i64>, id: i64) -> bool {
    exists|k: int| 0 <= k < ids.len() && ids[k] == id
}

/// Queues entry `id` for deletion; an id already queued is not queued
/// twice.
pub fn mark_pending(pending: &mut Vec<i64>, id: i64)
    ensures
        final(pending)@ == if has_id(old(pending)@, id) {
            old(pending)@
        } else {
            old(pending)@.push(id)
        },
        has_id(final(pending)@, id),
        old(pending)@.no_duplicates() ==> final(pending)@.no_duplicates(),
{
    if !id_in(pending.as_slice(), id) {
        pending.push(id);
        proof {
            assert(final(pending)@[final(pending)@.len() - 1] == id);
        }
    } else {
        proof {
            let k = choose|k: int| 0 <= k < pending@.len() && pending@[k] == id;
            assert(pending@[k] == id);
        }
    }
}

/// Takes entry `id` off the deletion queue (its deletion was undone or
/// committed); the other ids stay, in order.
pub fn unmark_pending(pending: &mut Vec<i64>, id: i64)
    ensures
        final(pending)@ == old(pending)@.filter(|p: i64| p != id),
        !has_id(final(pending)@, id),
        old(pending)@.no_duplicates() ==> final(pending)@.no_duplicates(),
{
    let ghost start = pending@;
    let mut rest: Vec<i64> = Vec::new();
    let mut k: usize = 0;
    while k < pending.len()
        invariant
            pending@ == start,
            k <= start.len(),
            rest@ == start.take(k as int).filter(|p: i64| p != id),
            forall|i: int| 0 <= i < rest@.len() ==> #[trigger] rest@[i] != id,
            forall|i: int|
                0 <= i < rest@.len() ==> exists|j: int| 0 <= j < k && start[j] == #[trigger] rest@[i],
            start.no_duplicates() ==> rest@.no_duplicates(),
        decreases start.len() - k,
    {
        proof {
            assert(start.take(k + 1).drop_last() =~= start.take(k as int));
            reveal(Seq::filter);
        }
        if pending[k] != id {
            proof {
                if start.no_duplicates() {
                    assert forall|i: int| 0 <= i < rest@.len() implies rest@[i] != start[k as int] by {
                        let j = choose|j: int| 0 <= j < k && start[j] == rest@[i];
                        assert(start[j] == rest@[i]);
                    }
                }
            }
            let ghost before = rest@;
            rest.push(pending[k]);
            proof {
                assert forall|i: int| 0 <= i < rest@.len() implies exists|j: int|
                    0 <= j < k + 1 && start[j] == #[trigger] rest@[i] by {
                    if i < before.len() {
                        assert(rest@[i] == before[i]);
                        let j = choose|j: int| 0 <= j < k && start[j] == before[i];
                        assert(0 <= j < k + 1 && start[j] == rest@[i]);
                    } else {
                        assert(start[k as int] == rest@[i]);
                    }
                }
            }
        }
        k = k + 1;
    }
    proof {
        assert(start.take(start.len() as int) =~= start);
    }
    *pending = rest;
}

/// Whether row `k` is shown: not awaiting deletion, and matching the search.
pub open spec fn row_visible(entries: Seq<HistoryEntry>, pending: Seq<i64>, needle: Seq<char>, k: int) -> bool {
    !has_id(pending, entries[k].id) && entries[k].matches_spec(needle)
}

/// The page for these rows: empty when every row awaits deletion, no
/// results when none of the rest is visible, else the list.
pub open spec fn list_page_spec(entries: Seq<HistoryEntry>, pending: Seq<i64>, needle: Seq<char>) -> ListPage {
    if forall|k: int| 0 <= k < entries.len() ==> has_id(pending, #[trigger] entries[k].id) {
        ListPage::Empty
    } else if forall|k: int| 0 <= k < entries.len() ==> !row_visible(entries, pending, needle, k) {
        ListPage::NoResults
    } else {
        ListPage::List
    }
}

fn id_in(ids: &[i64], id: i64) -> (r: bool)
    ensures
        r == has_id(ids@, id),
{
    let mut k: usize = 0;
    while k < ids.len()
        invariant
            k <= ids@.len(),
            forall|j: int| 0 <= j < k ==> ids@[j] != id,
        decreases ids@.len() - k,
    {
        if ids[k] == id {
            return true;
        }
        k = k + 1;
    }
    false
}

/// Which rows show under the search `needle` (already lowercased) while the
/// ids in `pending` wait for their deletion to be committed, and which page
/// the history shows.
pub fn list_visibility(entries: &[HistoryEntry], pending: &[i64], needle: &str) -> (r: (
    Vec<bool>,
    ListPage,
))
    ensures
        r.0@.len() == entries@.len(),
        forall|k: int| 0 <= k < entries@.len() ==> r.0@[k] == row_visible(entries@, pending@, needle@, k),
        r.1 == list_page_spec(entries@, pending@, needle@),
{
    let mut visible: Vec<bool> = Vec::new();
    let mut any_entry = false;
    let mut any_visible = false;
    let mut k: usize = 0;
    while k < entries.len()
        invariant
            k <= entries@.len(),
            visible@.len() == k,
            forall|j: int| 0 <= j < k ==> visible@[j] == row_visible(entries@, pending@, needle@, j),
            any_entry == exists|j: int| 0 <= j < k && !has_id(pending@, #[trigger] entries@[j].id),
            any_visible == exists|j: int| 0 <= j < k && #[trigger] row_visible(entries@, pending@, needle@, j),
        decreases entries@.len() - k,
    {
        let deleted = id_in(pending, entries[k].id);
        let shown = !deleted && entries[k].matches(needle);
        proof {
            assert(shown == row_visible(entries@, pending@, needle@, k as int));
            assert(deleted == has_id(pending@, entries@[k as int].id));
        }
        visible.push(shown);
        any_entry = any_entry || !deleted;
        any_visible = any_visible || shown;
        k = k + 1;
    }
    let page = if !any_entry {
        ListPage::Empty
    } else if !any_visible {
        ListPage::NoResults
    } else {
        ListPage::List
    };
    (visible, page)
}

// ── Refreshing the list ──────────────────────────────────────────────────────

/// Whether two entries hold the same values.
pub open spec fn same_entry(a: HistoryEntry, b: HistoryEntry) -> bool {
    &&& a.id == b.id
    &&& a.timestamp == b.timestamp
    &&& a.text@ == b.text@
    &&& a.status@ == b.status@
    &&& opt_seq(a.error) == opt_seq(b.error)
    &&& opt_seq(a.wav_path) == opt_seq(b.wav_path)
    &&& opt_seq(a.text_original) == opt_seq(b.text_original)
}

fn opt_eq(a: &Option<String>, b: &Option<String>) -> (r: bool)
    ensures
        r == (opt_seq(*a) == opt_seq(*b)),
{
    match (a, b) {
        (Some(x), Some(y)) => str_eq(x.as_str(), y.as_str()),
        (None, None) => true,
        _ => false,
    }
}

/// Whether two entries hold the same values.
pub fn entries_equal(a: &HistoryEntry, b: &HistoryEntry) -> (r: bool)
    ensures
        r == same_entry(*a, *b),
{
    a.id == b.id && a.timestamp == b.timestamp && str_eq(a.text.as_str(), b.text.as_str())
        && str_eq(a.status.as_str(), b.status.as_str()) && opt_eq(&a.error, &b.error) && opt_eq(
        &a.wav_path,
        &b.wav_path,
    ) && opt_eq(&a.text_original, &b.text_original)
}

/// The position of the last entry with this id, as a map keyed by id keeps
/// it.
pub open spec fn find_last(entries: Seq<HistoryEntry>, id: i64) -> Option<int>
    decreases entries.len(),
{
    if entries.len() == 0 {
        None
    } else if entries.last().id == id {
        Some(entries.len() - 1)
    } else {
        find_last(entries.drop_last(), id)
    }
}

proof fn lemma_find_last(entries: Seq<HistoryEntry>, id: i64)
    ensures
        find_last(entries, id) matches Some(j) ==> 0 <= j < entries.len() && entries[j].id == id,
        find_last(entries, id) is None ==> forall|j: int| 0 <= j < entries.len() ==> entries[j].id != id,
    decreases entries.len(),
{
    if entries.len() > 0 && entries.last().id != id {
        lemma_find_last(entries.drop_last(), id);
        assert forall|j: int| 0 <= j < entries.len() - 1 implies entries[j] == entries.drop_last()[j] by {}
    }
}

/// Whether a shown row stays: the database still holds its entry, unchanged.
pub open spec fn keeps_row(fresh: Seq<HistoryEntry>, row: HistoryEntry) -> bool {
    match find_last(fresh, row.id) {
        Some(j) => same_entry(fresh[j], row),
        None => false,
    }
}

/// Where a row of the refreshed list comes from.
#[derive(Debug, Clone, Copy, PartialEq, Eq)]
pub enum RowSource {
    /// The shown row at this position, kept as it is.
    Reuse(usize),
    /// A new row built for the fresh entry at this position.
    Build(usize),
}

/// The positions of the rows that stay, in order.
pub open spec fn kept_rows(shown: Seq<HistoryEntry>, fresh: Seq<HistoryEntry>) -> Seq<usize>
    decreases shown.len(),
{
    if shown.len() == 0 {
        Seq::empty()
    } else if keeps_row(fresh, shown.last()) {
        kept_rows(shown.drop_last(), fresh).push((shown.len() - 1) as usize)
    } else {
        kept_rows(shown.drop_last(), fresh)
    }
}

/// The refreshed list from fresh entry `j` on, with kept row `c` next in
/// line: a kept row is reused where its id comes up, anything else is
/// built anew.
pub open spec fn merge_rows(
    kept: Seq<usize>,
    shown: Seq<HistoryEntry>,
    fresh: Seq<HistoryEntry>,
    c: int,
    j: int,
) -> Seq<RowSource>
    decreases fresh.len() - j,
{
    if j < 0 || j >= fresh.len() {
        Seq::empty()
    } else if 0 <= c < kept.len() && shown[kept[c] as int].id == fresh[j].id {
        seq![RowSource::Reuse(kept[c])] + merge_rows(kept, shown, fresh, c + 1, j + 1)
    } else {
        seq![RowSource::Build(j as usize)] + merge_rows(kept, shown, fresh, c, j + 1)
    }
}

/// The plan for bringing the shown rows in line with the database.
#[derive(Debug)]
pub struct RefreshPlan {
    /// Per shown row: whether it stays.
    pub keep: Vec<bool>,
    /// The rows of the refreshed list, in order.
    pub rows: Vec<RowSource>,
    /// The pending deletions whose entries are still in the database.
    pub pending: Vec<i64>,
}

fn find_last_exec(fresh: &[HistoryEntry], id: i64) -> (r: Option<usize>)
    ensures
        match r {
            Some(j) => find_last(fresh@, id) == Some(j as int),
            None => find_last(fresh@, id) is None,
        },
{
    let mut n = fresh.len();
    proof {
        assert(fresh@.take(n as int) =~= fresh@);
    }
    while n > 0
        invariant
            n <= fresh@.len(),
            find_last(fresh@, id) == find_last(fresh@.take(n as int), id),
        decreases n,
    {
        proof {
            assert(fresh@.take(n as int).drop_last() =~= fresh@.take(n - 1));
        }
        if fresh[n - 1].id == id {
            return Some(n - 1);
        }
        n = n - 1;
    }
    None
}

/// Which shown rows stay, in what order the refreshed list takes its rows,
/// and which pending deletions still have an entry. `shown` is the list as
/// displayed, `fresh` the entries as loaded, newest first.
pub fn plan_refresh(shown: &[HistoryEntry], fresh: &[HistoryEntry], pending: &[i64]) -> (r: RefreshPlan)
    ensures
        r.keep@.len() == shown@.len(),
        forall|k: int| 0 <= k < shown@.len() ==> r.keep@[k] == keeps_row(fresh@, #[trigger] shown@[k]),
        r.rows@ == merge_rows(kept_rows(shown@, fresh@), shown@, fresh@, 0, 0),
        r.pending@ == pending@.filter(|id: i64| find_last(fresh@, id) is Some),
        pending@.no_duplicates() ==> r.pending@.no_duplicates(),
{
    let mut keep: Vec<bool> = Vec::new();
    let mut kept: Vec<usize> = Vec::new();
    let mut k: usize = 0;
    while k < shown.len()
        invariant
            k <= shown@.len(),
            keep@.len() == k,
            forall|i: int| 0 <= i < k ==> keep@[i] == keeps_row(fresh@, #[trigger] shown@[i]),
            kept@ == kept_rows(shown@.take(k as int), fresh@),
            forall|i: int| 0 <= i < kept@.len() ==> kept@[i] < k,
        decreases shown@.len() - k,
    {
        proof {
            lemma_find_last(fresh@, shown@[k as int].id);
        }
        let stays = match find_last_exec(fresh, shown[k].id) {
            Some(j) => entries_equal(&fresh[j], &shown[k]),
            None => false,
        };
        proof {
            assert(shown@.take(k + 1).drop_last() =~= shown@.take(k as int));
            assert(shown@.take(k + 1).last() == shown@[k as int]);
        }
        keep.push(stays);
        if stays {
            kept.push(k);
        }
        k = k + 1;
    }
    proof {
        assert(shown@.take(shown@.len() as int) =~= shown@);
    }
    let ghost all_kept = kept@;
    let mut rows: Vec<RowSource> = Vec::new();
    let mut c: usize = 0;
    let mut j: usize = 0;
    while j < fresh.len()
        invariant
            kept@ == all_kept,
            all_kept == kept_rows(shown@, fresh@),
            forall|i: int| 0 <= i < all_kept.len() ==> all_kept[i] < shown@.len(),
            j <= fresh@.len(),
            c <= kept@.len(),
            rows@ + merge_rows(all_kept, shown@, fresh@, c as int, j as int) == merge_rows(
                all_kept,
                shown@,
                fresh@,
                0,
                0,
            ),
        decreases fresh@.len() - j,
    {
        if c < kept.len() && shown[kept[c]].id == fresh[j].id {
            rows.push(RowSource::Reuse(kept[c]));
            c = c + 1;
        } else {
            rows.push(RowSource::Build(j));
        }
        j = j + 1;
        proof {
            assert(rows@ + merge_rows(all_kept, shown@, fresh@, c as int, j as int) =~= merge_rows(
                all_kept,
                shown@,
                fresh@,
                0,
                0,
            ));
        }
    }
    let mut still: Vec<i64> = Vec::new();
    let mut p: usize = 0;
    while p < pending.len()
        invariant
            p <= pending@.len(),
            still@ == pending@.take(p as int).filter(|id: i64| find_last(fresh@, id) is Some),
            forall|i: int|
                0 <= i < still@.len() ==> exists|j: int|
                    0 <= j < p && pending@[j] == #[trigger] still@[i],
            pending@.no_duplicates() ==> still@.no_duplicates(),
        decreases pending@.len() - p,
    {
        let found = find_last_exec(fresh, pending[p]);
        proof {
            assert(pending@.take(p + 1).drop_last() =~= pending@.take(p as int));
            reveal(Seq::filter);
        }
        if found.is_some() {
            proof {
                if pending@.no_duplicates() {
                    assert forall|i: int| 0 <= i < still@.len() implies still@[i] != pending@[p as int] by {
                        let j = choose|j: int| 0 <= j < p && pending@[j] == still@[i];
                        assert(pending@[j] == still@[i]);
                    }
                }
            }
            let ghost before = still@;
            still.push(pending[p]);
            proof {
                assert forall|i: int| 0 <= i < still@.len() implies exists|j: int|
                    0 <= j < p + 1 && pending@[j] == #[trigger] still@[i] by {
                    if i < before.len() {
                        assert(still@[i] == before[i]);
                        let j = choose|j: int| 0 <= j < p && pending@[j] == before[i];
                        assert(0 <= j < p + 1 && pending@[j] == still@[i]);
                    } else {
                        assert(pending@[p as int] == still@[i]);
                    }
                }
            }
        }
        p = p + 1;
    }
    proof {
        assert(pending@.take(pending@.len() as int) =~= pending@);
    }
    RefreshPlan { keep, rows, pending: still }
}

/// Whether the ids strictly decrease along the list, as they do newest
/// first.
pub open spec fn descending_ids(s: Seq<HistoryEntry>) -> bool {
    forall|a: int, b: int| 0 <= a < b < s.len() ==> #[trigger] s[a].id > #[trigger] s[b].id
}

/// The entry a row of the refreshed list displays.
pub open spec fn displayed(shown: Seq<HistoryEntry>, fresh: Seq<HistoryEntry>, r: RowSource) -> HistoryEntry {
    match r {
        RowSource::Reuse(k) => shown[k as int],
        RowSource::Build(j) => fresh[j as int],
    }
}

proof fn lemma_find_last_unique(fresh: Seq<HistoryEntry>, j: int)
    requires
        descending_ids(fresh),
        0 <= j < fresh.len(),
    ensures
        find_last(fresh, fresh[j].id) == Some(j),
{
    lemma_find_last(fresh, fresh[j].id);
    if let Some(j2) = find_last(fresh, fresh[j].id) {
        if j2 < j {
            assert(fresh[j2].id > fresh[j].id);
        } else if j2 > j {
            assert(fresh[j].id > fresh[j2].id);
        }
    }
}

proof fn lemma_kept_rows(shown: Seq<HistoryEntry>, fresh: Seq<HistoryEntry>)
    requires
        shown.len() <= usize::MAX,
    ensures
        forall|i: int|
            0 <= i < kept_rows(shown, fresh).len() ==> #[trigger] kept_rows(shown, fresh)[i]
                < shown.len() && keeps_row(fresh, shown[kept_rows(shown, fresh)[i] as int]),
        forall|a: int, b: int|
            0 <= a < b < kept_rows(shown, fresh).len() ==> #[trigger] kept_rows(shown, fresh)[a]
                < #[trigger] kept_rows(shown, fresh)[b],
        forall|k: int|
            0 <= k < shown.len() && keeps_row(fresh, #[trigger] shown[k]) ==> exists|i: int|
                0 <= i < kept_rows(shown, fresh).len() && kept_rows(shown, fresh)[i] == k,
    decreases shown.len(),
{
    if shown.len() > 0 {
        let rest = shown.drop_last();
        lemma_kept_rows(rest, fresh);
        assert forall|k: int| 0 <= k < rest.len() implies rest[k] == shown[k] by {}
        let kr = kept_rows(rest, fresh);
        let n = shown.len() - 1;
        if keeps_row(fresh, shown.last()) {
            let kk = kr.push(n as usize);
            assert(kept_rows(shown, fresh) == kk);
            assert(kk[kr.len() as int] == n);
            assert forall|k: int| 0 <= k < shown.len() && keeps_row(fresh, #[trigger] shown[k]) implies exists|i: int|
                0 <= i < kk.len() && kk[i] == k by {
                if k == n {
                    assert(kk[kr.len() as int] == k);
                } else {
                    assert(rest[k] == shown[k]);
                    assert(keeps_row(fresh, rest[k]));
                    let i = choose|i: int| 0 <= i < kr.len() && kr[i] == k;
                    assert(kk[i] == k);
                }
            }
        } else {
            assert(kept_rows(shown, fresh) == kr);
            assert forall|k: int| 0 <= k < shown.len() && keeps_row(fresh, #[trigger] shown[k]) implies exists|i: int|
                0 <= i < kr.len() && kr[i] == k by {
                assert(k != n);
                assert(rest[k] == shown[k]);
                assert(keeps_row(fresh, rest[k]));
            }
        }
    }
}

proof fn lemma_merge_rows(
    kept: Seq<usize>,
    shown: Seq<HistoryEntry>,
    fresh: Seq<HistoryEntry>,
    c: int,
    j: int,
)
    requires
        0 <= c <= kept.len(),
        0 <= j <= fresh.len(),
        fresh.len() <= usize::MAX,
        descending_ids(fresh),
        forall|i: int| 0 <= i < kept.len() ==> #[trigger] kept[i] < shown.len() && keeps_row(fresh, shown[kept[i] as int]),
        forall|a: int, b: int| 0 <= a < b < kept.len() ==> #[trigger] shown[kept[a] as int].id > #[trigger] shown[kept[b] as int].id,
        forall|i: int, t: int| c <= i < kept.len() && 0 <= t < j ==> #[trigger] fresh[t].id != #[trigger] shown[kept[i] as int].id,
        forall|i: int, t: int| 0 <= i < c && j <= t < fresh.len() ==> #[trigger] fresh[t].id != #[trigger] shown[kept[i] as int].id,
    ensures
        merge_rows(kept, shown, fresh, c, j).len() == fresh.len() - j,
        forall|t: int|
            0 <= t < fresh.len() - j ==> match #[trigger] merge_rows(kept, shown, fresh, c, j)[t] {
                RowSource::Reuse(k) => k < shown.len() && same_entry(shown[k as int], fresh[j + t]),
                RowSource::Build(b) => b == j + t && forall|i: int| 0 <= i < kept.len() ==> #[trigger] shown[kept[i] as int].id != fresh[j + t].id,
            },
    decreases fresh.len() - j,
{
    if j < fresh.len() {
        let m = merge_rows(kept, shown, fresh, c, j);
        if c < kept.len() && shown[kept[c] as int].id == fresh[j].id {
            lemma_find_last_unique(fresh, j);
            assert(keeps_row(fresh, shown[kept[c] as int]));
            assert forall|i: int, t: int| c + 1 <= i < kept.len() && 0 <= t < j + 1 implies #[trigger] fresh[t].id != #[trigger] shown[kept[i] as int].id by {
                if t == j {
                    assert(shown[kept[c] as int].id > shown[kept[i] as int].id);
                }
            }
            assert forall|i: int, t: int| 0 <= i < c + 1 && j + 1 <= t < fresh.len() implies #[trigger] fresh[t].id != #[trigger] shown[kept[i] as int].id by {
                if i == c {
                    assert(fresh[j].id > fresh[t].id);
                }
            }
            lemma_merge_rows(kept, shown, fresh, c + 1, j + 1);
            let rest = merge_rows(kept, shown, fresh, c + 1, j + 1);
            assert(m == seq![RowSource::Reuse(kept[c])] + rest);
            assert forall|t: int| 0 <= t < fresh.len() - j implies match #[trigger] m[t] {
                RowSource::Reuse(k) => k < shown.len() && same_entry(shown[k as int], fresh[j + t]),
                RowSource::Build(b) => b == j + t && forall|i: int| 0 <= i < kept.len() ==> #[trigger] shown[kept[i] as int].id != fresh[j + t].id,
            } by {
                if t > 0 {
                    assert(m[t] == rest[t - 1]);
                }
            }
        } else {
            assert forall|i: int, t: int| c <= i < kept.len() && 0 <= t < j + 1 implies #[trigger] fresh[t].id != #[trigger] shown[kept[i] as int].id by {
                if t == j && i > c {
                    assert(shown[kept[c] as int].id > shown[kept[i] as int].id);
                    let pc = find_last(fresh, shown[kept[c] as int].id);
                    lemma_find_last(fresh, shown[kept[c] as int].id);
                    let p = pc->0;
                    assert(fresh[p].id == shown[kept[c] as int].id);
                    if p < j {
                    } else if p == j {
                    } else {
                        assert(fresh[j].id > fresh[p].id);
                    }
                }
            }
            lemma_merge_rows(kept, shown, fresh, c, j + 1);
            let rest = merge_rows(kept, shown, fresh, c, j + 1);
            assert(m == seq![RowSource::Build(j as usize)] + rest);
            assert forall|t: int| 0 <= t < fresh.len() - j implies match #[trigger] m[t] {
                RowSource::Reuse(k) => k < shown.len() && same_entry(shown[k as int], fresh[j + t]),
                RowSource::Build(b) => b == j + t && forall|i: int| 0 <= i < kept.len() ==> #[trigger] shown[kept[i] as int].id != fresh[j + t].id,
            } by {
                if t > 0 {
                    assert(m[t] == rest[t - 1]);
                } else {
                    assert forall|i: int| 0 <= i < kept.len() implies #[trigger] shown[kept[i] as int].id != fresh[j].id by {
                        if i > c {
                            lemma_find_last(fresh, shown[kept[c] as int].id);
                            lemma_find_last(fresh, shown[kept[i] as int].id);
                            assert(keeps_row(fresh, shown[kept[c] as int]));
                            assert(keeps_row(fresh, shown[kept[i] as int]));
                            let pc = find_last(fresh, shown[kept[c] as int].id)->0;
                            let pi = find_last(fresh, shown[kept[i] as int].id)->0;
                            assert(shown[kept[c] as int].id > shown[kept[i] as int].id);
                            assert(fresh[pc].id == shown[kept[c] as int].id);
                            assert(fresh[pi].id == shown[kept[i] as int].id);
                            if pi <= pc {
                                if pi < pc {
                                    assert(fresh[pi].id > fresh[pc].id);
                                }
                            }
                            assert(pc >= j);
                            assert(pi > j);
                            assert(fresh[j].id > fresh[pi].id);
                        }
                    }
                }
            }
        }
    }
}

/// After a refresh the list shows exactly the loaded entries, in order: a
/// row is kept only where it still shows its entry unchanged, and a row is
/// built anew only where no kept row shows that entry. (Rows and entries
/// both come newest first, each id once.)
pub proof fn law_refresh_shows_the_loaded_entries(shown: Seq<HistoryEntry>, fresh: Seq<HistoryEntry>)
    requires
        shown.len() <= usize::MAX,
        fresh.len() <= usize::MAX,
        descending_ids(shown),
        descending_ids(fresh),
    ensures
        ({
            let rows = merge_rows(kept_rows(shown, fresh), shown, fresh, 0, 0);
            &&& rows.len() == fresh.len()
            &&& forall|j: int| 0 <= j < fresh.len() ==> same_entry(displayed(shown, fresh, #[trigger] rows[j]), fresh[j])
            &&& forall|j: int| 0 <= j < fresh.len() ==> (#[trigger] rows[j] is Build ==> forall|k: int|
                0 <= k < shown.len() && keeps_row(fresh, #[trigger] shown[k]) ==> shown[k].id != fresh[j].id)
        }),
{
    let kept = kept_rows(shown, fresh);
    lemma_kept_rows(shown, fresh);
    assert forall|a: int, b: int| 0 <= a < b < kept.len() implies #[trigger] shown[kept[a] as int].id > #[trigger] shown[kept[b] as int].id by {
        assert(kept[a] < kept[b]);
    }
    lemma_merge_rows(kept, shown, fresh, 0, 0);
    let rows = merge_rows(kept, shown, fresh, 0, 0);
    assert forall|j: int| 0 <= j < fresh.len() implies same_entry(displayed(shown, fresh, #[trigger] rows[j]), fresh[j]) by {
        assert(rows[j] == merge_rows(kept, shown, fresh, 0, 0)[j]);
    }
    assert forall|j: int| 0 <= j < fresh.len() && #[trigger] rows[j] is Build implies forall|k: int|
        0 <= k < shown.len() && keeps_row(fresh, #[trigger] shown[k]) ==> shown[k].id != fresh[j].id by {
        assert forall|k: int| 0 <= k < shown.len() && keeps_row(fresh, #[trigger] shown[k]) implies shown[k].id != fresh[j].id by {
            let i = choose|i: int| 0 <= i < kept.len() && kept[i] == k;
            assert(shown[kept[i] as int].id != fresh[j].id);
        }
    }
}

// ── Rows ─────────────────────────────────────────────────────────────────────

/// What a history row shows, before markup escaping.
#[derive(Debug, Clone, PartialEq, Eq)]
pub struct RowLayout {
    /// The entry failed: the title is "Failed: " and `title`, with an error
    /// icon in front.
    pub failed: bool,
    /// The text of the title: the transcript, or the failure's reason.
    pub title: String,
    /// The raw transcript, offered by a toggle when it differs from the text.
    pub original: Option<String>,
    /// A copy button for the displayed text.
    pub copy: bool,
    /// A retry button, for a failed entry whose recording was kept.
    pub retry: bool,
}

/// The layout of a row for `e`.
pub open spec fn row_layout_spec(e: HistoryEntry) -> (bool, Seq<char>, Option<Seq<char>>, bool, bool) {
    let failed = e.status@ == "failed"@;
    let title = if failed {
        match e.error {
            Some(m) => m@,
            None => "unknown error"@,
        }
    } else {
        e.text@
    };
    let original = if failed {
        None
    } else {
        match e.text_original {
            Some(raw) => if raw@ != e.text@ {
                Some(raw@)
            } else {
                None
            },
            None => None,
        }
    };
    (failed, title, original, !failed, failed && e.wav_path is Some)
}

impl RowLayout {
    /// The layout of a row for `entry`.
    pub fn of(entry: &HistoryEntry) -> (r: RowLayout)
        ensures
            (r.failed, r.title@, opt_seq(r.original), r.copy, r.retry) == row_layout_spec(*entry),
    {
        let failed = entry.failed();
        let title = if failed {
            match &entry.error {
                Some(m) => m.clone(),
                None => to_string("unknown error"),
            }
        } else {
            entry.text.clone()
        };
        let original = if failed {
            None
        } else {
            match &entry.text_original {
                Some(raw) => if str_eq(raw.as_str(), entry.text.as_str()) {
                    None
                } else {
                    Some(raw.clone())
                },
                None => None,
            }
        };
        RowLayout { failed, title, original, copy: !failed, retry: failed && entry.wav_path.is_some() }
    }
}

// ── Ages and durations ───────────────────────────────────────────────────────

/// How long ago something happened, `elapsed` seconds back.
pub open spec fn age_spec(elapsed: nat) -> Seq<char> {
    if elapsed < 60 {
        "just now"@
    } else if elapsed < 3600 {
        decimal(elapsed / 60) + " min ago"@
    } else if elapsed < 86400 {
        decimal(elapsed / 3600) + " hr ago"@
    } else {
        let days = elapsed / 86400;
        decimal(days) + (if days == 1 {
            " day ago"@
        } else {
            " days ago"@
        })
    }
}

/// The relative age of a timestamp `ts` at `now` (both in seconds since
/// the epoch): empty when the timestamp is unknown (0); a timestamp in the
/// future counts as now.
pub open spec fn format_timestamp_spec(ts: i64, now: u64) -> Seq<char> {
    if ts == 0 {
        Seq::empty()
    } else if now >= ts {
        age_spec((now - ts) as nat)
    } else {
        age_spec(0)
    }
}

fn with_suffix(n: u64, suffix: &str) -> (r: String)
    ensures
        r@ == decimal(n as nat) + suffix@,
{
    let mut r = decimal_string(n);
    push_str(&mut r, suffix);
    r
}

/// "just now", "5 min ago", "2 hr ago", "3 days ago".
pub fn format_timestamp(ts: i64, now: u64) -> (r: String)
    requires
        ts >= 0,
    ensures
        r@ == format_timestamp_spec(ts, now),
{
    if ts == 0 {
        return String::new();
    }
    let t = ts as u64;
    let elapsed: u64 = if now >= t {
        now - t
    } else {
        0
    };
    if elapsed < 60 {
        to_string("just now")
    } else if elapsed < 3600 {
        with_suffix(elapsed / 60, " min ago")
    } else if elapsed < 86400 {
        with_suffix(elapsed / 3600, " hr ago")
    } else {
        let days = elapsed / 86400;
        if days == 1 {
            with_suffix(days, " day ago")
        } else {
            with_suffix(days, " days ago")
        }
    }
}

/// Two decimal digits, with a leading zero below ten.
pub open spec fn two_digits(n: nat) -> Seq<char> {
    if n < 10 {
        seq!['0'] + decimal(n)
    } else {
        decimal(n)
    }
}

/// A length of a minute or more in whole seconds: "2m 05s".
pub open spec fn minutes_label_spec(secs: nat) -> Seq<char> {
    decimal(secs / 60) + "m "@ + two_digits(secs % 60) + "s"@
}

/// Formats a recording length of `secs` whole seconds as minutes and
/// seconds.
pub fn minutes_label(secs: u64) -> (r: String)
    ensures
        r@ == minutes_label_spec(secs as nat),
{
    let mut r = with_suffix(secs / 60, "m ");
    let s = secs % 60;
    if s < 10 {
        r.push('0');
    }
    push_str(&mut r, decimal_string(s).as_str());
    push_str(&mut r, "s");
    proof {
        if s < 10 {
            assert(r@ =~= minutes_label_spec(secs as nat));
        } else {
            assert(r@ =~= minutes_label_spec(secs as nat));
        }
    }
    r
}

// ── Recordings ───────────────────────────────────────────────────────────────

/// Whether the canonical path `p` lies in the canonical directory `dir`,
/// comparing whole path components: `p` is `dir` itself or continues it
/// after a separator.
pub open spec fn within_dir(dir: Seq<char>, p: Seq<char>) -> bool {
    ||| p == dir
    ||| (dir.len() > 0 && dir.last() == '/' && dir.is_prefix_of(p))
    ||| dir.push('/').is_prefix_of(p)
}

/// `resolved`, the canonical form of a stored WAV path, if it lies inside
/// the canonical recordings directory. Paths reach the daemon from the
/// database, so anything it reads or deletes is confined there.
pub fn recording_path(recordings_dir: &str, resolved: &str) -> (r: Option<String>)
    ensures
        within_dir(recordings_dir@, resolved@) ==> (r matches Some(p) && p@ == resolved@),
        !within_dir(recordings_dir@, resolved@) ==> r is None,
{
    let n = recordings_dir.unicode_len();
    let inside = if str_eq(recordings_dir, resolved) {
        true
    } else if n > 0 && recordings_dir.get_char(n - 1) == '/' {
        crate::text::starts_with(resolved, recordings_dir)
    } else {
        let mut dir = to_string(recordings_dir);
        dir.push('/');
        crate::text::starts_with(resolved, dir.as_str())
    };
    proof {
        if n > 0 {
            assert(recordings_dir@.last() == recordings_dir@[n - 1]);
        }
    }
    if inside {
        Some(to_string(resolved))
    } else {
        None
    }
}

// ── WAV headers ──────────────────────────────────────────────────────────────

/// The format fields of a PCM WAV header.
#[derive(Debug, Clone, Copy, PartialEq, Eq)]
pub struct WavFormat {
    pub channels: u16,
    pub sample_rate: u32,
    pub bits_per_sample: u16,
    pub data_size: u32,
}

/// The `u16` stored little-endian at `at`.
pub open spec fn le16_at(b: Seq<u8>, at: int) -> int {
    b[at] + 256 * b[at + 1]
}

/// The `u32` stored little-endian at `at`.
pub open spec fn le32_at(b: Seq<u8>, at: int) -> int {
    b[at] + 256 * b[at + 1] + 65536 * b[at + 2] + 16777216 * b[at + 3]
}

/// What the first 44 bytes of a PCM WAV file say: nothing unless they are
/// all there with the RIFF and WAVE tags in place and a non-zero channel
/// count, sample rate and sample width; else the channels, rate, bits per
/// sample and data size.
pub open spec fn wav_format_spec(b: Seq<u8>) -> Option<(int, int, int, int)> {
    if b.len() < 44 || b.subrange(0, 4) != crate::audio::tag_riff() || b.subrange(8, 12)
        != crate::audio::tag_wave() {
        None
    } else {
        let channels = le16_at(b, 22);
        let rate = le32_at(b, 24);
        let bits = le16_at(b, 34);
        if rate == 0 || channels == 0 || bits == 0 {
            None
        } else {
            Some((channels, rate, bits, le32_at(b, 40)))
        }
    }
}

fn le16(b: &[u8], at: usize) -> (r: u16)
    requires
        at + 2 <= b@.len(),
    ensures
        r == le16_at(b@, at as int),
{
    b[at] as u16 + 256 * b[at + 1] as u16
}

fn le32(b: &[u8], at: usize) -> (r: u32)
    requires
        at + 4 <= b@.len(),
    ensures
        r == le32_at(b@, at as int),
{
    b[at] as u32 + 256 * b[at + 1] as u32 + 65536 * b[at + 2] as u32 + 16777216 * b[at + 3] as u32
}

fn tag_at(b: &[u8], at: usize, tag: [u8; 4]) -> (r: bool)
    requires
        at + 4 <= b@.len(),
    ensures
        r == (b@.subrange(at as int, at + 4) == tag@),
{
    let r = b[at] == tag[0] && b[at + 1] == tag[1] && b[at + 2] == tag[2] && b[at + 3] == tag[3];
    proof {
        if r {
            assert(b@.subrange(at as int, at + 4) =~= tag@);
        } else if b@.subrange(at as int, at + 4) == tag@ {
            assert(b@.subrange(at as int, at + 4)[0] == b@[at as int]);
            assert(b@.subrange(at as int, at + 4)[1] == b@[at + 1]);
            assert(b@.subrange(at as int, at + 4)[2] == b@[at + 2]);
            assert(b@.subrange(at as int, at + 4)[3] == b@[at + 3]);
        }
    }
    r
}

/// Reads the format of a PCM WAV file from its header bytes.
pub fn wav_format(header: &[u8]) -> (r: Option<WavFormat>)
    ensures
        match (r, wav_format_spec(header@)) {
            (Some(f), Some((c, s, bits, d))) => f.channels == c && f.sample_rate == s
                && f.bits_per_sample == bits && f.data_size == d,
            (None, None) => true,
            _ => false,
        },
{
    if header.len() < 44 {
        return None;
    }
    let riff = tag_at(header, 0, [0x52u8, 0x49u8, 0x46u8, 0x46u8]);
    let wave = tag_at(header, 8, [0x57u8, 0x41u8, 0x56u8, 0x45u8]);
    proof {
        assert([0x52u8, 0x49u8, 0x46u8, 0x46u8]@ =~= crate::audio::tag_riff());
        assert([0x57u8, 0x41u8, 0x56u8, 0x45u8]@ =~= crate::audio::tag_wave());
    }
    if !riff || !wave {
        return None;
    }
    let channels = le16(header, 22);
    let sample_rate = le32(header, 24);
    let bits_per_sample = le16(header, 34);
    let data_size = le32(header, 40);
    if sample_rate == 0 || channels == 0 || bits_per_sample == 0 {
        return None;
    }
    Some(WavFormat { channels, sample_rate, bits_per_sample, data_size })
}

impl WavFormat {
    /// Bytes of audio per second: rate times channels times whole bytes
    /// per sample.
    pub fn bytes_per_second(&self) -> (r: u64)
        ensures
            r == self.sample_rate * self.channels * (self.bits_per_sample / 8),
    {
        let rate = self.sample_rate as u64;
        let channels = self.channels as u64;
        let width = (self.bits_per_sample / 8) as u64;
        proof {
            assert(rate * channels <= 0xffff_ffffu64 * 0xffffu64) by (nonlinear_arith)
                requires
                    rate <= 0xffff_ffffu64,
                    channels <= 0xffffu64,
            ;
            assert(rate * channels * width <= 0xffff_ffffu64 * 0xffffu64 * 0x2000u64) by (nonlinear_arith)
                requires
                    rate * channels <= 0xffff_ffffu64 * 0xffffu64,
                    width <= 0x2000u64,
            ;
        }
        rate * channels * width
    }
}

proof fn lemma_u32_le_reads_back(x: u32)
    ensures
        le32_at(crate::audio::u32_le(x), 0) == x,
        crate::audio::u32_le(x).len() == 4,
{
    let b = crate::audio::u32_le(x);
    assert((x % 256) as u8 as int == x % 256);
    assert(((x / 256) % 256) as u8 as int == (x / 256) % 256);
    assert(((x / 65536) % 256) as u8 as int == (x / 65536) % 256);
    assert((x / 16777216) as u8 as int == x / 16777216);
    assert(x % 256 + 256 * ((x / 256) % 256) + 65536 * ((x / 65536) % 256) + 16777216 * (x
        / 16777216) == x) by (nonlinear_arith);
}

proof fn lemma_u16_le_reads_back(x: u16)
    ensures
        le16_at(crate::audio::u16_le(x), 0) == x,
        crate::audio::u16_le(x).len() == 2,
{
    assert((x % 256) as u8 as int == x % 256);
    assert((x / 256) as u8 as int == x / 256);
}

/// The header `encode_wav` writes reads back as what it was written with:
/// one channel, the sample rate, 16 bits per sample and the data size.
pub proof fn law_wav_header_reads_back(samples: Seq<i16>, sample_rate: u32)
    requires
        sample_rate != 0,
        sample_rate <= u32::MAX / 16,
        crate::audio::data_size_of(samples.len()) <= u32::MAX - 36,
    ensures
        wav_format_spec(crate::audio::wav_file(samples, sample_rate)) == Some(
            (1int, sample_rate as int, 16int, crate::audio::data_size_of(samples.len()) as int),
        ),
{
    let w = crate::audio::wav_file(samples, sample_rate);
    let data_size = crate::audio::data_size_of(samples.len());
    let riff = crate::audio::u32_le((36 + data_size) as u32);
    let fmt_len = crate::audio::u32_le(16);
    let pcm = crate::audio::u16_le(1);
    let chans = crate::audio::u16_le(1);
    let rate = crate::audio::u32_le(sample_rate);
    let byte_rate = crate::audio::u32_le((sample_rate * 2) as u32);
    let align = crate::audio::u16_le(2);
    let bits = crate::audio::u16_le(16);
    let data = crate::audio::u32_le(data_size);
    lemma_u32_le_reads_back((36 + data_size) as u32);
    lemma_u32_le_reads_back(16);
    lemma_u16_le_reads_back(1);
    lemma_u32_le_reads_back(sample_rate);
    lemma_u32_le_reads_back((sample_rate * 2) as u32);
    lemma_u16_le_reads_back(2);
    lemma_u16_le_reads_back(16);
    lemma_u32_le_reads_back(data_size);
    let head = crate::audio::tag_riff() + riff + crate::audio::tag_wave() + crate::audio::tag_fmt()
        + fmt_len + pcm + chans + rate + byte_rate + align + bits + crate::audio::tag_data() + data;
    assert(head.len() == 44);
    assert(w == head + crate::streaming::pcm16_le(samples));
    assert(w.subrange(0, 4) =~= crate::audio::tag_riff());
    assert(w.subrange(8, 12) =~= crate::audio::tag_wave());
    assert(w[22] == chans[0] && w[23] == chans[1]);
    assert(w[24] == rate[0] && w[25] == rate[1] && w[26] == rate[2] && w[27] == rate[3]);
    assert(w[34] == bits[0] && w[35] == bits[1]);
    assert(w[40] == data[0] && w[41] == data[1] && w[42] == data[2] && w[43] == data[3]);
    assert(le16_at(w, 22) == le16_at(chans, 0));
    assert(le32_at(w, 24) == le32_at(rate, 0));
    assert(le16_at(w, 34) == le16_at(bits, 0));
    assert(le32_at(w, 40) == le32_at(data, 0));
}

} // verus!
