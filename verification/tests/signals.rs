use transcriber::config::AppConfig;
use transcriber::daemon::{discard_signals, BusSignal, DiscardReason};
use transcriber::pipeline::{transcript_outcome, TranscriptOutcome};

fn names(signals: Vec<BusSignal>) -> Vec<String> {
    signals
        .into_iter()
        .map(|s| match s {
            BusSignal::SessionDiscarded(r) => format!("SessionDiscarded({r})"),
            BusSignal::StateChanged(s) => format!("StateChanged({s})"),
        })
        .collect()
}

#[test]
fn a_cancel_announces_itself_before_idle() {
    assert_eq!(
        names(discard_signals(DiscardReason::Cancelled)),
        vec!["SessionDiscarded(cancelled)", "StateChanged(Idle)"]
    );
}

#[test]
fn no_speech_announces_itself_before_idle() {
    assert_eq!(
        names(discard_signals(DiscardReason::NoSpeech)),
        vec!["SessionDiscarded(no-speech)", "StateChanged(Idle)"]
    );
}

#[test]
fn a_parroted_prompt_is_discarded_as_no_speech() {
    let cfg = AppConfig::default();
    let no_speech = TranscriptOutcome::Discard(DiscardReason::NoSpeech);
    assert_eq!(transcript_outcome(&cfg, "AccuDose, Safehous."), no_speech);
    assert_eq!(transcript_outcome(&cfg, "accudose safehous"), no_speech);
    assert_eq!(transcript_outcome(&cfg, ""), no_speech);
}

#[test]
fn real_speech_is_delivered() {
    let cfg = AppConfig::default();
    assert_eq!(transcript_outcome(&cfg, "Open AccuDose please."), TranscriptOutcome::Deliver);
    assert_eq!(transcript_outcome(&cfg, "AccuDose"), TranscriptOutcome::Deliver);
}

#[test]
fn without_a_prompt_nothing_is_an_echo() {
    let cfg = AppConfig { vocabulary_enabled: false, ..AppConfig::default() };
    assert_eq!(transcript_outcome(&cfg, "AccuDose, Safehous."), TranscriptOutcome::Deliver);
    assert_eq!(
        transcript_outcome(&cfg, ""),
        TranscriptOutcome::Discard(DiscardReason::NoSpeech)
    );
}
