use transcriber::audio::encode_wav;
use transcriber::history::{
    entries_equal, escape_like, mark_pending, unmark_pending, format_timestamp, list_visibility, minutes_label, plan_refresh,
    recording_path, wav_format, HistoryEntry, ListPage, RowLayout, RowSource,
};

fn entry(id: i64, text: &str) -> HistoryEntry {
    HistoryEntry {
        id,
        timestamp: 1000,
        text: text.to_string(),
        status: "ok".to_string(),
        error: None,
        wav_path: None,
        text_original: None,
    }
}

fn failed(id: i64, error: &str, wav: Option<&str>) -> HistoryEntry {
    HistoryEntry {
        text: String::new(),
        status: "failed".to_string(),
        error: Some(error.to_string()),
        wav_path: wav.map(|w| w.to_string()),
        ..entry(id, "")
    }
}

#[test]
fn like_wildcards_match_literally() {
    assert_eq!(escape_like("100%_done\\"), "100\\%\\_done\\\\");
    assert_eq!(escape_like("plain"), "plain");
}

#[test]
fn failed_entries_are_marked() {
    assert!(failed(1, "boom", None).failed());
    assert!(!entry(1, "hi").failed());
}

#[test]
fn search_matches_text_original_and_error() {
    let mut e = entry(1, "Open AccuDose");
    assert!(e.matches(""));
    assert!(e.matches("accudose"));
    assert!(!e.matches("safehous"));
    e.text_original = Some("open accu dose".into());
    assert!(e.matches("accu dose"));
    assert!(failed(2, "Groq: 413 File too large", None).matches("file too"));
}

#[test]
fn pending_deletions_hide_rows_and_pick_the_page() {
    let rows = vec![entry(3, "alpha"), entry(2, "beta"), entry(1, "gamma")];
    let (vis, page) = list_visibility(&rows, &[2], "");
    assert_eq!(vis, vec![true, false, true]);
    assert_eq!(page, ListPage::List);
    let (vis, page) = list_visibility(&rows, &[], "zzz");
    assert_eq!(vis, vec![false, false, false]);
    assert_eq!(page, ListPage::NoResults);
    let (_, page) = list_visibility(&rows, &[1, 2, 3], "");
    assert_eq!(page, ListPage::Empty);
    let (_, page) = list_visibility(&[], &[], "");
    assert_eq!(page, ListPage::Empty);
}

#[test]
fn refresh_keeps_unchanged_rows_and_builds_the_rest() {
    let shown = vec![entry(5, "five"), entry(4, "four"), entry(2, "two")];
    let mut changed = entry(4, "four, retried");
    changed.timestamp = 2000;
    let fresh = vec![entry(6, "six"), entry(5, "five"), changed, entry(3, "three")];
    let plan = plan_refresh(&shown, &fresh, &[2, 5]);
    assert_eq!(plan.keep, vec![true, false, false]);
    assert_eq!(
        plan.rows,
        vec![RowSource::Build(0), RowSource::Reuse(0), RowSource::Build(2), RowSource::Build(3)]
    );
    assert_eq!(plan.pending, vec![5]);
}

#[test]
fn equal_entries_compare_every_field() {
    let a = entry(1, "x");
    let mut b = entry(1, "x");
    assert!(entries_equal(&a, &b));
    b.wav_path = Some("/r/1.wav".into());
    assert!(!entries_equal(&a, &b));
}

#[test]
fn rows_show_text_or_failure() {
    let ok = RowLayout::of(&HistoryEntry { text_original: Some("raw".into()), ..entry(1, "Polished.") });
    assert_eq!(ok, RowLayout { failed: false, title: "Polished.".into(), original: Some("raw".into()), copy: true, retry: false });
    let same = RowLayout::of(&HistoryEntry { text_original: Some("x".into()), ..entry(1, "x") });
    assert_eq!(same.original, None);
    let bad = RowLayout::of(&failed(2, "timeout", Some("/r/2.wav")));
    assert_eq!(bad, RowLayout { failed: true, title: "timeout".into(), original: None, copy: false, retry: true });
    let unknown = RowLayout::of(&HistoryEntry { error: None, ..failed(3, "", None) });
    assert_eq!(unknown.title, "unknown error");
}

#[test]
fn ages_read_naturally() {
    assert_eq!(format_timestamp(0, 5000), "");
    assert_eq!(format_timestamp(1000, 1030), "just now");
    assert_eq!(format_timestamp(1000, 1000 + 5 * 60 + 10), "5 min ago");
    assert_eq!(format_timestamp(1000, 1000 + 2 * 3600), "2 hr ago");
    assert_eq!(format_timestamp(1000, 1000 + 86400), "1 day ago");
    assert_eq!(format_timestamp(1000, 1000 + 3 * 86400 + 5), "3 days ago");
    assert_eq!(format_timestamp(5000, 1000), "just now");
}

#[test]
fn long_recordings_show_minutes() {
    assert_eq!(minutes_label(65), "1m 05s");
    assert_eq!(minutes_label(600), "10m 00s");
    assert_eq!(minutes_label(119), "1m 59s");
}

#[test]
fn recordings_are_confined_to_their_directory() {
    let dir = "/home/u/.local/share/transcriber/recordings";
    assert_eq!(recording_path(dir, "/home/u/.local/share/transcriber/recordings/1.wav").as_deref(), Some("/home/u/.local/share/transcriber/recordings/1.wav"));
    assert_eq!(recording_path(dir, "/home/u/.local/share/transcriber/recordings-old/1.wav"), None);
    assert_eq!(recording_path(dir, "/etc/passwd"), None);
    assert_eq!(recording_path("/", "/etc/passwd").as_deref(), Some("/etc/passwd"));
}

#[test]
fn encoded_wavs_read_back() {
    let wav = encode_wav(&[0, 1, -1, 300], 16000);
    let f = wav_format(&wav[..44]).expect("a WAV header");
    assert_eq!((f.channels, f.sample_rate, f.bits_per_sample, f.data_size), (1, 16000, 16, 8));
    assert_eq!(f.bytes_per_second(), 32000);
    assert_eq!(wav_format(&wav[..43]), None);
    let mut broken = wav.clone();
    broken[0] = b'X';
    assert_eq!(wav_format(&broken), None);
    let mut silent = wav.clone();
    silent[24..28].copy_from_slice(&[0, 0, 0, 0]);
    assert_eq!(wav_format(&silent), None);
}

#[test]
fn pending_deletions_hold_each_id_once() {
    let mut pending = Vec::new();
    mark_pending(&mut pending, 3);
    mark_pending(&mut pending, 7);
    mark_pending(&mut pending, 3);
    assert_eq!(pending, vec![3, 7]);
    unmark_pending(&mut pending, 3);
    assert_eq!(pending, vec![7]);
    unmark_pending(&mut pending, 9);
    assert_eq!(pending, vec![7]);
    let plan = plan_refresh(&[], &[entry(7, "a"), entry(5, "b")], &[5, 7, 8]);
    assert_eq!(plan.pending, vec![5, 7]);
}
