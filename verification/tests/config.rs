use transcriber::config::{
    default_deepgram_model, default_groq_model, default_history_max_entries,
    default_max_recording_secs, default_overlay_keyboard_mode, default_postprocess_gemini_model,
    default_postprocess_groq_model, default_postprocess_prompt, default_postprocess_provider,
    default_provider, default_true,
    config_path, estimate_prompt_tokens, legacy_migration_due, legacy_state_dir, path_join,
    retire_removed_providers, state_dir, AppConfig, DEFAULT_POSTPROCESS_PROMPT,
    VOCABULARY_TOKEN_LIMIT,
};

fn cfg_with(vocab: &[&str]) -> AppConfig {
    AppConfig {
        vocabulary: vocab.iter().map(|s| (*s).to_string()).collect(),
        ..AppConfig::default()
    }
}

#[test]
fn default_config_ships_the_project_vocabulary() {
    let cfg = AppConfig::default();
    assert_eq!(cfg.active_prompt().as_deref(), Some("AccuDose, Safehous"));
}

#[test]
fn disabled_switch_withholds_the_prompt() {
    let cfg = AppConfig { vocabulary_enabled: false, ..AppConfig::default() };
    assert_eq!(cfg.active_prompt(), None);
}

#[test]
fn a_config_naming_a_removed_provider_falls_back_to_groq() {
    let mut cfg = AppConfig {
        provider: "cohere".to_string(),
        language: Some("en".to_string()),
        sample_rate: 16000,
        ..AppConfig::default()
    };
    retire_removed_providers(&mut cfg);
    assert_eq!(cfg.provider, "groq");
}

#[test]
fn custom_endpoints_do_receive_a_prompt() {
    let mut cfg = cfg_with(&["Kubernetes"]);
    cfg.provider = "custom".into();
    assert_eq!(cfg.active_prompt().as_deref(), Some("Kubernetes"));
}

#[test]
fn blank_and_whitespace_terms_are_dropped() {
    let cfg = cfg_with(&["  AccuDose  ", "", "   ", "Safehous"]);
    assert_eq!(cfg.active_prompt().as_deref(), Some("AccuDose, Safehous"));
}

#[test]
fn an_empty_list_sends_nothing_rather_than_an_empty_string() {
    assert_eq!(cfg_with(&[]).active_prompt(), None);
    assert_eq!(cfg_with(&["", "  "]).active_prompt(), None);
}

#[test]
fn a_parroted_prompt_is_recognised_as_an_echo() {
    let cfg = AppConfig::default();
    assert!(cfg.is_prompt_echo("AccuDose, Safehous."));
    assert!(cfg.is_prompt_echo("accudose safehous"));
    assert!(cfg.is_prompt_echo("AccuDose, Safehous. AccuDose, Safehous."));
}

#[test]
fn real_speech_is_not_an_echo() {
    let cfg = AppConfig::default();
    assert!(!cfg.is_prompt_echo("AccuDose"), "a single spoken term is shorter than the list");
    assert!(!cfg.is_prompt_echo("Open AccuDose and Safehous"));
    assert!(!cfg.is_prompt_echo(""));
    let off = AppConfig { vocabulary_enabled: false, ..AppConfig::default() };
    assert!(!off.is_prompt_echo("AccuDose, Safehous."), "no prompt sent, nothing to echo");
}

#[test]
fn postprocess_prompt_lists_the_vocabulary() {
    let cfg = cfg_with(&["  AccuDose ", "", "Safehous"]);
    let prompt = cfg.active_postprocess_system_prompt();
    assert!(prompt.starts_with(cfg.postprocess_prompt.trim_end()));
    assert!(prompt.ends_with("* AccuDose\n* Safehous"));
}

#[test]
fn postprocess_prompt_is_untouched_without_vocabulary() {
    let cfg = AppConfig { vocabulary_enabled: false, ..AppConfig::default() };
    assert_eq!(cfg.active_postprocess_system_prompt(), cfg.postprocess_prompt);
    assert_eq!(cfg_with(&["", " "]).active_postprocess_system_prompt(), DEFAULT_POSTPROCESS_PROMPT);
}

#[test]
fn postprocess_prompt_keeps_vocabulary_past_whisper_cap() {
    let terms: Vec<String> = (0..200).map(|i| format!("Term{i}")).collect();
    let cfg = AppConfig { vocabulary: terms, ..AppConfig::default() };
    assert!(cfg.active_postprocess_system_prompt().contains("* Term199"));
}

#[test]
fn overlong_lists_are_truncated_at_a_term_boundary() {
    // 200 × "Chattanooga" is far past the 224-token budget.
    let terms: Vec<String> = std::iter::repeat_n("Chattanooga".to_string(), 200).collect();
    let cfg = AppConfig { vocabulary: terms, ..AppConfig::default() };
    let prompt = cfg.active_prompt().expect("some terms should survive");

    // Never exceeds the cap...
    let kept: Vec<String> = prompt.split(", ").map(|s| s.to_string()).collect();
    assert!(estimate_prompt_tokens(&kept) <= VOCABULARY_TOKEN_LIMIT);
    // ...and cuts between terms, never mid-word.
    assert!(kept.iter().all(|t| t == "Chattanooga"));
    assert!(kept.len() < 200, "expected truncation, kept all {} terms", kept.len());
}

#[test]
fn migration_is_a_noop_with_nothing_to_migrate() {
    assert!(!legacy_migration_due(false, false), "must not create anything");
}

#[test]
fn the_token_estimate_stays_above_the_real_count() {
    // "AccuDose" is 3 Whisper BPE tokens; the 3-chars-per-token estimate
    // must not come in under that, or the cap could be breached silently.
    let terms = vec!["AccuDose".to_string()];
    assert!(estimate_prompt_tokens(&terms) >= 3);
}

#[test]
fn token_estimate_is_three_chars_per_token_plus_a_separator() {
    // "AccuDose" (8 chars) costs 3 + 1, "Safehous" likewise; blanks cost nothing.
    let terms = vec!["AccuDose".to_string(), "  ".to_string(), " Safehous ".to_string()];
    assert_eq!(estimate_prompt_tokens(&terms), 8);
    assert_eq!(estimate_prompt_tokens(&[]), 0);
    assert_eq!(estimate_prompt_tokens(&["abc".to_string()]), 2);
}

#[test]
fn the_prompt_always_fits_the_budget() {
    let terms: Vec<String> = (0..400).map(|i| format!("Vocabulary{i}")).collect();
    let cfg = AppConfig { vocabulary: terms, ..AppConfig::default() };
    let prompt = cfg.active_prompt().unwrap();
    let kept: Vec<String> = prompt.split(", ").map(|s| s.to_string()).collect();
    assert!(estimate_prompt_tokens(&kept) <= VOCABULARY_TOKEN_LIMIT);
    assert_eq!(kept[0], "Vocabulary0");
}

#[test]
fn known_providers_are_kept() {
    let mut cfg = AppConfig { provider: "custom".to_string(), ..AppConfig::default() };
    retire_removed_providers(&mut cfg);
    assert_eq!(cfg.provider, "custom");
}

#[test]
fn active_endpoint_follows_the_provider() {
    let cfg = AppConfig::default();
    assert_eq!(cfg.active_url(), "https://api.groq.com/openai/v1/audio/transcriptions");
    assert_eq!(cfg.active_model(), "whisper-large-v3-turbo");
    let custom = AppConfig {
        provider: "custom".into(),
        custom_api_url: "http://localhost:8000/v1/audio/transcriptions".into(),
        custom_api_key: "k".into(),
        custom_model: "m".into(),
        ..AppConfig::default()
    };
    assert_eq!(custom.active_url(), "http://localhost:8000/v1/audio/transcriptions");
    assert_eq!(custom.active_key(), "k");
    assert_eq!(custom.active_model(), "m");
}

#[test]
fn postprocess_endpoint_follows_its_provider() {
    let cfg = AppConfig {
        postprocess_provider: "gemini".into(),
        postprocess_gemini_api_key: "g".into(),
        ..AppConfig::default()
    };
    assert_eq!(cfg.active_postprocess_key(), "g");
    assert_eq!(cfg.active_postprocess_model(), cfg.postprocess_gemini_model.as_str());
}

#[test]
fn config_paths_join_with_one_separator() {
    assert_eq!(config_path("/home/u/.config/transcriber"), "/home/u/.config/transcriber/config.json");
    assert_eq!(path_join("/a/", "b"), "/a/b");
    assert_eq!(path_join("", "b"), "b");
    assert_eq!(state_dir("/home/u/.local/share"), "/home/u/.local/share/transcriber");
    assert_eq!(legacy_state_dir("/home/u/.config"), "/home/u/.config/voice-transcriber");
}

#[test]
fn migration_never_clobbers_and_runs_once() {
    assert!(legacy_migration_due(true, false));
    assert!(!legacy_migration_due(true, true));
    assert!(!legacy_migration_due(false, true));
}

#[test]
fn default_config_values() {
    let cfg = AppConfig::default();
    assert_eq!(cfg.max_recording_secs, 600);
    assert_eq!(cfg.provider, "groq");
    assert!(cfg.save_history);
    assert!(cfg.vocabulary_enabled);
}

#[test]
fn setters_edit_the_active_provider_only() {
    let mut cfg = AppConfig::default();
    cfg.set_active_key("gk".to_string());
    cfg.set_active_model("gm".to_string());
    assert_eq!((cfg.groq_api_key.as_str(), cfg.groq_model.as_str()), ("gk", "gm"));
    assert_eq!((cfg.custom_api_key.as_str(), cfg.custom_model.as_str()), ("", ""));
    assert_eq!((cfg.active_key(), cfg.active_model()), ("gk", "gm"));

    cfg.provider = "custom".to_string();
    cfg.set_active_key("ck".to_string());
    cfg.set_active_model("cm".to_string());
    assert_eq!((cfg.custom_api_key.as_str(), cfg.custom_model.as_str()), ("ck", "cm"));
    assert_eq!((cfg.groq_api_key.as_str(), cfg.groq_model.as_str()), ("gk", "gm"));
    assert_ne!(default_groq_model(), "gm");
}

#[test]
fn postprocess_setters_edit_the_active_provider_only() {
    let mut cfg = AppConfig::default();
    cfg.postprocess_provider = "gemini".to_string();
    cfg.set_active_postprocess_key("k".to_string());
    cfg.set_active_postprocess_model("m".to_string());
    assert_eq!(cfg.postprocess_gemini_api_key, "k");
    assert_eq!(cfg.postprocess_gemini_model, "m");
    assert_eq!(cfg.postprocess_groq_api_key, "");
    assert_eq!(cfg.postprocess_custom_model, "");
    assert_eq!((cfg.active_postprocess_key(), cfg.active_postprocess_model()), ("k", "m"));

    cfg.postprocess_provider = "custom".to_string();
    cfg.set_active_postprocess_key("ck".to_string());
    assert_eq!(cfg.postprocess_custom_api_key, "ck");
    assert_eq!(cfg.postprocess_gemini_api_key, "k");
}

#[test]
fn the_defaults_are_public_and_match_a_fresh_config() {
    let cfg = AppConfig::default();
    assert_eq!(default_provider(), cfg.provider);
    assert_eq!(default_overlay_keyboard_mode(), "ondemand");
    assert_eq!(default_deepgram_model(), "nova-3");
    assert!(default_true());
    assert_eq!(default_postprocess_provider(), "groq");
    assert_eq!(default_postprocess_groq_model(), "llama-3.3-70b-versatile");
    assert_eq!(default_postprocess_gemini_model(), "gemini-3-flash-preview");
    assert_eq!(default_postprocess_prompt(), DEFAULT_POSTPROCESS_PROMPT);
    assert_eq!(default_max_recording_secs(), 600);
    assert_eq!(default_history_max_entries(), 500);
}
