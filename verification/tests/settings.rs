use transcriber::bus::reload_config_no_reply;
use transcriber::checks::{
    accel_or, active_checks, api_key_problem, check_display, flag, is_gnome_desktop, CheckKind,
    FixAction, Probe, StatusCheck,
};
use transcriber::config::AppConfig;
use transcriber::coupling::{reconcile_startup, Coupled};
use transcriber::saver::EditQueue;
use transcriber::settings::{
    keyboard_mode_at, keyboard_mode_idx, parse_terms, postprocess_provider_idx,
    postprocess_provider_str, provider_idx, provider_str, vocabulary_budget, vocabulary_usefulness,
};

#[test]
fn gnome_sessions_check_the_extension() {
    let checks = active_checks(true);
    let titles: Vec<&str> = checks.iter().map(|c| c.title).collect();
    assert_eq!(
        titles,
        vec![
            "Daemon installed",
            "Daemon running",
            "Extension installed",
            "Extension loaded by GNOME Shell",
            "Extension enabled",
            "API keys configured"
        ]
    );
    assert_eq!(checks[5].fix, Some(FixAction::GoToSettings));
}

#[test]
fn wlroots_sessions_check_the_overlay() {
    let checks = active_checks(false);
    assert_eq!(checks.len(), 5);
    assert_eq!(checks[2].kind, CheckKind::OverlayInstalled);
    assert_eq!(
        checks[3].fix,
        Some(FixAction::RunCommand {
            btn_label: "Start overlay",
            program: "systemctl",
            args: vec!["--user", "enable", "--now", "transcriber-overlay.service"],
        })
    );
    assert_eq!(
        CheckKind::DaemonInstalled.probe(),
        Probe::Binary { name: "transcriber-daemon", local_subpath: ".local/bin/transcriber-daemon" }
    );
}

#[test]
fn the_key_check_follows_the_daemons_path() {
    assert_eq!(
        api_key_problem(&AppConfig::default()),
        Err("No transcription API key — transcription will fail".to_string())
    );
    let streaming = AppConfig { streaming_enabled: true, ..AppConfig::default() };
    assert_eq!(api_key_problem(&streaming), Err("No Deepgram API key — transcription will fail".to_string()));
    let both = AppConfig { postprocess_enabled: true, streaming_enabled: true, ..AppConfig::default() };
    assert_eq!(
        api_key_problem(&both),
        Err("No transcription or post-processing API keys — transcription will fail".to_string())
    );
    let pp_only = AppConfig { postprocess_enabled: true, groq_api_key: "k".into(), ..AppConfig::default() };
    assert_eq!(api_key_problem(&pp_only), Err("No post-processing API key — transcription will fail".to_string()));
    let ready = AppConfig { groq_api_key: "k".into(), ..AppConfig::default() };
    assert_eq!(api_key_problem(&ready), Ok(()));
}

#[test]
fn check_rows_fall_back_to_the_generic_failure() {
    let c = StatusCheck::of(CheckKind::DaemonRunning);
    assert_eq!(check_display(&c, &flag(true)), ("systemd service is active".to_string(), true, false));
    assert_eq!(check_display(&c, &flag(false)), ("Service not running".to_string(), false, true));
    assert_eq!(check_display(&c, &Err("boom".to_string())), ("boom".to_string(), false, true));
}

#[test]
fn desktop_detection_ignores_case() {
    assert!(is_gnome_desktop("ubuntu:GNOME"));
    assert!(is_gnome_desktop("gnome"));
    assert!(!is_gnome_desktop("Hyprland"));
    assert!(!is_gnome_desktop(""));
}

#[test]
fn accelerators_fall_back_when_unset() {
    assert_eq!(accel_or(&[], "<Super>apostrophe"), "<Super>apostrophe");
    assert_eq!(accel_or(&["".to_string()], "<Super>x"), "<Super>x");
    assert_eq!(accel_or(&["<Ctrl>y".to_string(), "z".to_string()], "<Super>x"), "<Ctrl>y");
}

#[test]
fn startup_prefers_postprocessing_and_enables_injection() {
    let (c, notes) = reconcile_startup(Coupled { streaming: true, postprocess: true, direct_injection: false });
    assert_eq!(c, Coupled { streaming: false, postprocess: true, direct_injection: false });
    assert_eq!(notes, vec!["Streaming turned off — post-processing was also on and takes priority"]);
    let (c, notes) = reconcile_startup(Coupled { streaming: true, postprocess: false, direct_injection: false });
    assert_eq!(c, Coupled { streaming: true, postprocess: false, direct_injection: true });
    assert_eq!(notes, vec!["Direct injection turned on — streaming requires it"]);
    let ok = Coupled { streaming: false, postprocess: true, direct_injection: true };
    assert_eq!(reconcile_startup(ok), (ok, vec![]));
}

#[test]
fn switches_keep_streaming_and_postprocessing_apart() {
    let c = Coupled { streaming: false, postprocess: true, direct_injection: false };
    let (c, note) = c.streaming_toggled(true);
    assert_eq!(c, Coupled { streaming: true, postprocess: false, direct_injection: true });
    assert_eq!(note, Some("Post-processing turned off — it can't be combined with streaming"));
    let (c2, note) = c.postprocess_toggled(true);
    assert_eq!(c2, Coupled { streaming: false, postprocess: true, direct_injection: true });
    assert_eq!(note, Some("Streaming turned off — it can't be combined with post-processing"));
    let (c3, note) = c.direct_toggled(false);
    assert_eq!(c3, Coupled { streaming: false, postprocess: false, direct_injection: false });
    assert_eq!(note, Some("Streaming turned off — it requires direct injection"));
    assert_eq!(c.streaming_toggled(false), (Coupled { streaming: false, ..c }, None));
}

#[test]
fn list_positions_map_both_ways() {
    assert_eq!(provider_idx("custom"), 2);
    assert_eq!(provider_idx("unknown"), 0);
    assert_eq!(provider_str(1), "cohere");
    assert_eq!(provider_str(9), "groq");
    assert_eq!(postprocess_provider_idx("gemini"), 1);
    assert_eq!(postprocess_provider_str(2), "custom");
    assert_eq!(keyboard_mode_idx("exclusive"), 2);
    assert_eq!(keyboard_mode_idx("weird"), 1);
    assert_eq!(keyboard_mode_at(0), "none");
    assert_eq!(keyboard_mode_at(7), "ondemand");
}

#[test]
fn the_editor_text_becomes_trimmed_terms() {
    assert_eq!(parse_terms("  AccuDose \n\n Safehous\r\n   "), vec!["AccuDose", "Safehous"]);
    assert!(parse_terms("").is_empty());
    assert_eq!(parse_terms("one"), vec!["one"]);
}

#[test]
fn the_budget_readout_counts_terms_and_tokens() {
    let terms = vec!["AccuDose".to_string()];
    assert_eq!(vocabulary_budget(&terms), ("1 term · ~4/224 tokens".to_string(), false));
    let many: Vec<String> = (0..60).map(|i| format!("Chattanooga{i}")).collect();
    let (label, over) = vocabulary_budget(&many);
    assert!(over);
    assert!(label.starts_with("60 terms · ~"));
}

#[test]
fn vocabulary_only_matters_where_it_is_sent() {
    assert_eq!(vocabulary_usefulness("groq", false), (true, false));
    assert_eq!(vocabulary_usefulness("cohere", false), (false, false));
    assert_eq!(vocabulary_usefulness("cohere", true), (true, true));
}

#[test]
fn failed_writes_keep_their_edits() {
    let mut q: EditQueue<u32> = EditQueue::new(true);
    assert!(q.record(1));
    assert!(q.record(2));
    let taken = q.take_for_write().unwrap();
    assert_eq!(taken, vec![1, 2]);
    assert!(q.take_for_write().is_none());
    q.record(3);
    q.restore(taken);
    assert_eq!(q.pending, vec![1, 2, 3]);
    q.clear();
    assert!(q.pending.is_empty());
}

#[test]
fn a_disabled_queue_records_nothing() {
    let mut q: EditQueue<u32> = EditQueue::new(false);
    assert!(!q.record(1));
    assert!(q.take_for_write().is_none());
    q.set_enabled(true);
    assert!(q.record(2));
}

#[test]
fn shutdown_asks_for_a_reload() {
    assert_eq!(reload_config_no_reply(), "ReloadConfig");
}
