//! The setup checks of the status page: which checks a session shows, what
//! each one probes, its messages and fix, and the API-key check, which is
//! decided from the configuration alone.

use vstd::prelude::*;

use crate::config::{postprocess_pick, AppConfig};
use crate::text::{push_str, to_string};

verus! {

/// The outcome of a check: `Err` carries a specific failure message, or an
/// empty string to use the check's generic failure message.
pub open spec fn flag_spec(ok: bool) -> Result<(), Seq<char>> {
    if ok {
        Ok(())
    } else {
        Err(Seq::empty())
    }
}

/// The abstract value of a check outcome.
pub open spec fn outcome_view(r: Result<(), String>) -> Result<(), Seq<char>> {
    match r {
        Ok(()) => Ok(()),
        Err(m) => Err(m@),
    }
}

/// A check that passes or fails without a specific message.
pub fn flag(ok: bool) -> (r: Result<(), String>)
    ensures
        outcome_view(r) == flag_spec(ok),
{
    if ok {
        Ok(())
    } else {
        Err(String::new())
    }
}

/// What each check looks at.
#[derive(Debug, Clone, Copy, PartialEq, Eq)]
pub enum CheckKind {
    DaemonInstalled,
    DaemonRunning,
    ExtensionInstalled,
    ExtensionLoaded,
    ExtensionEnabled,
    OverlayInstalled,
    OverlayRunning,
    ApiKeys,
}

/// How the status page fixes a failed check.
#[derive(Debug, Clone, PartialEq, Eq)]
pub enum FixAction {
    RunCommand { btn_label: &'static str, program: &'static str, args: Vec<&'static str> },
    CopyText { btn_label: &'static str, text: &'static str },
    GoToSettings,
}

/// The abstract value of a `FixAction`.
pub enum FixView {
    RunCommand(Seq<char>, Seq<char>, Seq<Seq<char>>),
    CopyText(Seq<char>, Seq<char>),
    GoToSettings,
}

/// The views of a list of string slices.
pub open spec fn strs_view(v: Seq<&'static str>) -> Seq<Seq<char>> {
    v.map_values(|s: &'static str| s@)
}

/// The abstract value of an optional fix.
pub open spec fn fix_view(f: Option<FixAction>) -> Option<FixView> {
    match f {
        Some(FixAction::RunCommand { btn_label, program, args }) => Some(
            FixView::RunCommand(btn_label@, program@, strs_view(args@)),
        ),
        Some(FixAction::CopyText { btn_label, text }) => Some(FixView::CopyText(btn_label@, text@)),
        Some(FixAction::GoToSettings) => Some(FixView::GoToSettings),
        None => None,
    }
}

/// One row of the status page.
#[derive(Debug, Clone, PartialEq, Eq)]
pub struct StatusCheck {
    pub title: &'static str,
    pub ok_msg: &'static str,
    pub fail_msg: &'static str,
    pub kind: CheckKind,
    pub fix: Option<FixAction>,
}

/// The title, success message and failure message of each check.
pub open spec fn texts_spec(kind: CheckKind) -> (Seq<char>, Seq<char>, Seq<char>) {
    match kind {
        CheckKind::DaemonInstalled => (
            "Daemon installed"@,
            "Binary found in ~/.local/bin or on $PATH"@,
            "Binary not found \u{2014} run install.sh (or rebuild your Nix config)"@,
        ),
        CheckKind::DaemonRunning => (
            "Daemon running"@,
            "systemd service is active"@,
            "Service not running"@,
        ),
        CheckKind::ExtensionInstalled => (
            "Extension installed"@,
            "Found in ~/.local/share/gnome-shell/extensions/"@,
            "Extension not found \u{2014} run install.sh"@,
        ),
        CheckKind::ExtensionLoaded => (
            "Extension loaded by GNOME Shell"@,
            "GNOME Shell has scanned the extension"@,
            "Not loaded yet \u{2014} log out and back in on Wayland"@,
        ),
        CheckKind::ExtensionEnabled => (
            "Extension enabled"@,
            "Enabled in GNOME Shell"@,
            "Extension loaded but not enabled"@,
        ),
        CheckKind::OverlayInstalled => (
            "Overlay installed"@,
            "Binary found in ~/.local/bin or on $PATH"@,
            "Overlay not found \u{2014} run install.sh (or enable it in your Nix config)"@,
        ),
        CheckKind::OverlayRunning => (
            "Overlay running"@,
            "systemd service is active"@,
            "Overlay not running"@,
        ),
        CheckKind::ApiKeys => (
            "API keys configured"@,
            "Every provider in use has a key"@,
            "Missing API key \u{2014} transcription will fail"@,
        ),
    }
}

/// The fix each check offers.
pub open spec fn fix_spec(kind: CheckKind) -> Option<FixView> {
    match kind {
        CheckKind::DaemonInstalled | CheckKind::ExtensionInstalled | CheckKind::OverlayInstalled => Some(
            FixView::CopyText("Copy command"@, "bash install.sh"@),
        ),
        CheckKind::DaemonRunning => Some(
            FixView::RunCommand(
                "Start daemon"@,
                "systemctl"@,
                seq!["--user"@, "enable"@, "--now"@, "transcriber-daemon.service"@],
            ),
        ),
        CheckKind::ExtensionLoaded => Some(
            FixView::CopyText("Copy logout command"@, "gnome-session-quit --logout"@),
        ),
        CheckKind::ExtensionEnabled => Some(
            FixView::RunCommand(
                "Enable extension"@,
                "gnome-extensions"@,
                seq!["enable"@, "transcriber@local"@],
            ),
        ),
        CheckKind::OverlayRunning => Some(
            FixView::RunCommand(
                "Start overlay"@,
                "systemctl"@,
                seq!["--user"@, "enable"@, "--now"@, "transcriber-overlay.service"@],
            ),
        ),
        CheckKind::ApiKeys => Some(FixView::GoToSettings),
    }
}

/// Whether a row is the check of its kind, with that kind's texts and fix.
pub open spec fn describes(c: StatusCheck) -> bool {
    &&& (c.title@, c.ok_msg@, c.fail_msg@) == texts_spec(c.kind)
    &&& fix_view(c.fix) == fix_spec(c.kind)
}

fn copy_command() -> (r: Option<FixAction>)
    ensures
        fix_view(r) == Some(FixView::CopyText("Copy command"@, "bash install.sh"@)),
{
    Some(FixAction::CopyText { btn_label: "Copy command", text: "bash install.sh" })
}

fn run_command(btn_label: &'static str, program: &'static str, args: Vec<&'static str>) -> (r: Option<
    FixAction,
>)
    ensures
        fix_view(r) == Some(FixView::RunCommand(btn_label@, program@, strs_view(args@))),
{
    Some(FixAction::RunCommand { btn_label, program, args })
}

impl StatusCheck {
    /// The check of the given kind.
    pub fn of(kind: CheckKind) -> (r: StatusCheck)
        ensures
            r.kind == kind,
            describes(r),
    {
        match kind {
            CheckKind::DaemonInstalled => StatusCheck {
                title: "Daemon installed",
                ok_msg: "Binary found in ~/.local/bin or on $PATH",
                fail_msg: "Binary not found \u{2014} run install.sh (or rebuild your Nix config)",
                kind,
                fix: copy_command(),
            },
            CheckKind::DaemonRunning => {
                let args = vec!["--user", "enable", "--now", "transcriber-daemon.service"];
                proof {
                    assert(strs_view(args@) =~= seq![
                        "--user"@,
                        "enable"@,
                        "--now"@,
                        "transcriber-daemon.service"@,
                    ]);
                }
                StatusCheck {
                    title: "Daemon running",
                    ok_msg: "systemd service is active",
                    fail_msg: "Service not running",
                    kind,
                    fix: run_command("Start daemon", "systemctl", args),
                }
            },
            CheckKind::ExtensionInstalled => StatusCheck {
                title: "Extension installed",
                ok_msg: "Found in ~/.local/share/gnome-shell/extensions/",
                fail_msg: "Extension not found \u{2014} run install.sh",
                kind,
                fix: copy_command(),
            },
            CheckKind::ExtensionLoaded => StatusCheck {
                title: "Extension loaded by GNOME Shell",
                ok_msg: "GNOME Shell has scanned the extension",
                fail_msg: "Not loaded yet \u{2014} log out and back in on Wayland",
                kind,
                fix: Some(
                    FixAction::CopyText {
                        btn_label: "Copy logout command",
                        text: "gnome-session-quit --logout",
                    },
                ),
            },
            CheckKind::ExtensionEnabled => {
                let args = vec!["enable", "transcriber@local"];
                proof {
                    assert(strs_view(args@) =~= seq!["enable"@, "transcriber@local"@]);
                }
                StatusCheck {
                    title: "Extension enabled",
                    ok_msg: "Enabled in GNOME Shell",
                    fail_msg: "Extension loaded but not enabled",
                    kind,
                    fix: run_command("Enable extension", "gnome-extensions", args),
                }
            },
            CheckKind::OverlayInstalled => StatusCheck {
                title: "Overlay installed",
                ok_msg: "Binary found in ~/.local/bin or on $PATH",
                fail_msg: "Overlay not found \u{2014} run install.sh (or enable it in your Nix config)",
                kind,
                fix: copy_command(),
            },
            CheckKind::OverlayRunning => {
                let args = vec!["--user", "enable", "--now", "transcriber-overlay.service"];
                proof {
                    assert(strs_view(args@) =~= seq![
                        "--user"@,
                        "enable"@,
                        "--now"@,
                        "transcriber-overlay.service"@,
                    ]);
                }
                StatusCheck {
                    title: "Overlay running",
                    ok_msg: "systemd service is active",
                    fail_msg: "Overlay not running",
                    kind,
                    fix: run_command("Start overlay", "systemctl", args),
                }
            },
            CheckKind::ApiKeys => StatusCheck {
                title: "API keys configured",
                ok_msg: "Every provider in use has a key",
                fail_msg: "Missing API key \u{2014} transcription will fail",
                kind,
                fix: Some(FixAction::GoToSettings),
            },
        }
    }
}

/// The checks of a session, in order: on GNOME Shell the hotkey and level
/// meter come from the extension, elsewhere from the overlay binary.
pub open spec fn active_kinds(gnome: bool) -> Seq<CheckKind> {
    if gnome {
        seq![
            CheckKind::DaemonInstalled,
            CheckKind::DaemonRunning,
            CheckKind::ExtensionInstalled,
            CheckKind::ExtensionLoaded,
            CheckKind::ExtensionEnabled,
            CheckKind::ApiKeys,
        ]
    } else {
        seq![
            CheckKind::DaemonInstalled,
            CheckKind::DaemonRunning,
            CheckKind::OverlayInstalled,
            CheckKind::OverlayRunning,
            CheckKind::ApiKeys,
        ]
    }
}

/// The checks shown for this session: GNOME Shell (`gnome`) or a wlroots
/// compositor.
pub fn active_checks(gnome: bool) -> (r: Vec<StatusCheck>)
    ensures
        r@.len() == active_kinds(gnome).len(),
        forall|i: int| 0 <= i < r@.len() ==> r@[i].kind == active_kinds(gnome)[i] && describes(
            #[trigger] r@[i],
        ),
{
    let kinds = if gnome {
        vec![
            CheckKind::DaemonInstalled,
            CheckKind::DaemonRunning,
            CheckKind::ExtensionInstalled,
            CheckKind::ExtensionLoaded,
            CheckKind::ExtensionEnabled,
            CheckKind::ApiKeys,
        ]
    } else {
        vec![
            CheckKind::DaemonInstalled,
            CheckKind::DaemonRunning,
            CheckKind::OverlayInstalled,
            CheckKind::OverlayRunning,
            CheckKind::ApiKeys,
        ]
    };
    proof {
        assert(kinds@ =~= active_kinds(gnome));
    }
    let mut r: Vec<StatusCheck> = Vec::new();
    let mut i: usize = 0;
    while i < kinds.len()
        invariant
            kinds@ == active_kinds(gnome),
            i <= kinds@.len(),
            r@.len() == i,
            forall|k: int| 0 <= k < i ==> r@[k].kind == kinds@[k] && describes(#[trigger] r@[k]),
        decreases kinds@.len() - i,
    {
        r.push(StatusCheck::of(kinds[i]));
        i = i + 1;
    }
    r
}

/// What the app probes for each check.
#[derive(Debug, Clone, Copy, PartialEq, Eq)]
pub enum Probe {
    /// The binary exists under the home directory at `local_subpath`, or as
    /// `name` in a directory of `$PATH`.
    Binary { name: &'static str, local_subpath: &'static str },
    /// `systemctl --user is-active --quiet` succeeds for the unit.
    Service(&'static str),
    /// This path exists under the user's data directory.
    DataFile(&'static str),
    /// The program's output, run with the arguments, mentions the needle.
    OutputMentions { program: &'static str, args: &'static [&'static str], needle: &'static str },
    /// Decided from the configuration: `api_key_problem`.
    Config,
}

impl CheckKind {
    /// What to probe for this check.
    pub fn probe(&self) -> (r: Probe)
        ensures
            match (*self, r) {
                (CheckKind::DaemonInstalled, Probe::Binary { name, local_subpath }) => name@
                    == "transcriber-daemon"@ && local_subpath@
                    == ".local/bin/transcriber-daemon"@,
                (CheckKind::DaemonRunning, Probe::Service(unit)) => unit@
                    == "transcriber-daemon.service"@,
                (CheckKind::ExtensionInstalled, Probe::DataFile(p)) => p@
                    == "gnome-shell/extensions/transcriber@local"@,
                (CheckKind::ExtensionLoaded, Probe::OutputMentions { program, args, needle }) => program@
                    == "gnome-extensions"@ && args@.len() == 1 && args@[0]@ == "list"@ && needle@
                    == "transcriber@local"@,
                (CheckKind::ExtensionEnabled, Probe::OutputMentions { program, args, needle }) => program@
                    == "gsettings"@ && args@.len() == 3 && args@[0]@ == "get"@ && args@[1]@
                    == "org.gnome.shell"@ && args@[2]@ == "enabled-extensions"@ && needle@
                    == "transcriber@local"@,
                (CheckKind::OverlayInstalled, Probe::Binary { name, local_subpath }) => name@
                    == "transcriber-overlay"@ && local_subpath@
                    == ".local/bin/transcriber-overlay"@,
                (CheckKind::OverlayRunning, Probe::Service(unit)) => unit@
                    == "transcriber-overlay.service"@,
                (CheckKind::ApiKeys, Probe::Config) => true,
                _ => false,
            },
    {
        match self {
            CheckKind::DaemonInstalled => Probe::Binary {
                name: "transcriber-daemon",
                local_subpath: ".local/bin/transcriber-daemon",
            },
            CheckKind::DaemonRunning => Probe::Service("transcriber-daemon.service"),
            CheckKind::ExtensionInstalled => Probe::DataFile("gnome-shell/extensions/transcriber@local"),
            CheckKind::ExtensionLoaded => {
                let args: &'static [&'static str] = &["list"];
                Probe::OutputMentions { program: "gnome-extensions", args, needle: "transcriber@local" }
            },
            CheckKind::ExtensionEnabled => {
                let args: &'static [&'static str] = &["get", "org.gnome.shell", "enabled-extensions"];
                Probe::OutputMentions { program: "gsettings", args, needle: "transcriber@local" }
            },
            CheckKind::OverlayInstalled => Probe::Binary {
                name: "transcriber-overlay",
                local_subpath: ".local/bin/transcriber-overlay",
            },
            CheckKind::OverlayRunning => Probe::Service("transcriber-overlay.service"),
            CheckKind::ApiKeys => Probe::Config,
        }
    }
}

/// The keys a configuration is missing, in the order they are reported:
/// streaming (only when post-processing is off) needs the Deepgram key,
/// batch transcription the active provider's key, and post-processing its
/// own key on top.
pub open spec fn missing_keys(cfg: AppConfig) -> Seq<Seq<char>> {
    let streaming = cfg.streaming_enabled && !cfg.postprocess_enabled;
    let first: Seq<Seq<char>> = if streaming {
        if cfg.deepgram_api_key@.len() == 0 {
            seq!["Deepgram"@]
        } else {
            Seq::empty()
        }
    } else {
        let key = if cfg.is_groq() {
            cfg.groq_api_key@
        } else {
            cfg.custom_api_key@
        };
        if key.len() == 0 {
            seq!["transcription"@]
        } else {
            Seq::empty()
        }
    };
    let pp_key = postprocess_pick(
        cfg,
        cfg.postprocess_groq_api_key@,
        cfg.postprocess_gemini_api_key@,
        cfg.postprocess_custom_api_key@,
    );
    if cfg.postprocess_enabled && pp_key.len() == 0 {
        first.push("post-processing"@)
    } else {
        first
    }
}

/// The outcome of the API-key check for a configuration.
pub open spec fn api_key_problem_spec(cfg: AppConfig) -> Result<(), Seq<char>> {
    let missing = missing_keys(cfg);
    if missing.len() == 0 {
        Ok(())
    } else if missing.len() == 1 {
        Err("No "@ + missing[0] + " API key \u{2014} transcription will fail"@)
    } else {
        Err("No "@ + missing[0] + " or "@ + missing[1] + " API keys \u{2014} transcription will fail"@)
    }
}

/// Checks every key the configuration will actually use, following the
/// daemon's choice between streaming and batch transcription.
pub fn api_key_problem(cfg: &AppConfig) -> (r: Result<(), String>)
    ensures
        outcome_view(r) == api_key_problem_spec(*cfg),
{
    let streaming = cfg.streaming_enabled && !cfg.postprocess_enabled;
    let first: Option<&'static str> = if streaming {
        if cfg.deepgram_api_key.as_str().unicode_len() == 0 {
            Some("Deepgram")
        } else {
            None
        }
    } else if cfg.active_key().unicode_len() == 0 {
        Some("transcription")
    } else {
        None
    };
    let second = cfg.postprocess_enabled && cfg.active_postprocess_key().unicode_len() == 0;
    match (first, second) {
        (None, false) => Ok(()),
        (Some(one), false) => {
            let mut m = to_string("No ");
            push_str(&mut m, one);
            push_str(&mut m, " API key \u{2014} transcription will fail");
            Err(m)
        },
        (None, true) => {
            let m = to_string("No post-processing API key \u{2014} transcription will fail");
            proof {
                reveal_strlit("No post-processing API key \u{2014} transcription will fail");
                reveal_strlit("No ");
                reveal_strlit("post-processing");
                reveal_strlit(" API key \u{2014} transcription will fail");
                assert(m@ =~= "No "@ + "post-processing"@ + " API key \u{2014} transcription will fail"@);
            }
            Err(m)
        },
        (Some(one), true) => {
            let mut m = to_string("No ");
            push_str(&mut m, one);
            push_str(&mut m, " or post-processing API keys \u{2014} transcription will fail");
            proof {
                reveal_strlit(" or post-processing API keys \u{2014} transcription will fail");
                reveal_strlit(" or ");
                reveal_strlit("post-processing");
                reveal_strlit(" API keys \u{2014} transcription will fail");
                assert(m@ =~= "No "@ + one@ + " or "@ + "post-processing"@
                    + " API keys \u{2014} transcription will fail"@);
            }
            Err(m)
        },
    }
}

/// How a finished check shows: the subtitle, whether it passed, and
/// whether its fix button is offered. A failure without a specific message
/// shows the check's generic one.
pub open spec fn check_display_spec(c: StatusCheck, result: Result<(), Seq<char>>) -> (Seq<char>, bool, bool) {
    match result {
        Ok(()) => (c.ok_msg@, true, false),
        Err(m) => (if m.len() == 0 {
            c.fail_msg@
        } else {
            m
        }, false, c.fix is Some),
    }
}

/// The subtitle, pass mark and fix-button visibility of a finished check.
pub fn check_display(check: &StatusCheck, result: &Result<(), String>) -> (r: (String, bool, bool))
    ensures
        (r.0@, r.1, r.2) == check_display_spec(*check, outcome_view(*result)),
{
    match result {
        Ok(()) => (to_string(check.ok_msg), true, false),
        Err(m) => {
            let subtitle = if m.as_str().unicode_len() == 0 {
                to_string(check.fail_msg)
            } else {
                m.clone()
            };
            (subtitle, false, check.fix.is_some())
        },
    }
}

/// ASCII lowercase of one character.
pub open spec fn ascii_lower(c: char) -> char {
    if 'A' <= c && c <= 'Z' {
        ((c as u32) + 32) as char
    } else {
        c
    }
}

fn ascii_lower_exec(c: char) -> (r: char)
    ensures
        r == ascii_lower(c),
{
    if 'A' <= c && c <= 'Z' {
        let b = c as u8;
        proof {
            assert(b as u32 == c as u32);
        }
        (b + 32) as char
    } else {
        c
    }
}

/// Whether the desktop named by `XDG_CURRENT_DESKTOP` is GNOME Shell: the
/// value, ASCII-lowercased, mentions "gnome".
pub open spec fn is_gnome_desktop_spec(xdg_current_desktop: Seq<char>) -> bool {
    crate::text::contains_seq(xdg_current_desktop.map_values(|c: char| ascii_lower(c)), "gnome"@)
}

/// Whether the session is GNOME Shell, where the hotkey and level meter
/// come from the GNOME extension rather than the overlay.
pub fn is_gnome_desktop(xdg_current_desktop: &str) -> (r: bool)
    ensures
        r == is_gnome_desktop_spec(xdg_current_desktop@),
{
    let n = xdg_current_desktop.unicode_len();
    let mut lower = String::new();
    let mut i: usize = 0;
    while i < n
        invariant
            n == xdg_current_desktop@.len(),
            i <= n,
            lower@ == xdg_current_desktop@.take(i as int).map_values(|c: char| ascii_lower(c)),
        decreases n - i,
    {
        let c = xdg_current_desktop.get_char(i);
        lower.push(ascii_lower_exec(c));
        proof {
            assert(xdg_current_desktop@.take(i + 1).map_values(|c: char| ascii_lower(c))
                =~= xdg_current_desktop@.take(i as int).map_values(|c: char| ascii_lower(c)).push(
                ascii_lower(c),
            ));
        }
        i = i + 1;
    }
    proof {
        assert(xdg_current_desktop@.take(n as int) =~= xdg_current_desktop@);
    }
    crate::text::contains(lower.as_str(), "gnome")
}

/// The first accelerator bound to a shortcut, or `fallback` when there is
/// none or it is empty.
pub fn accel_or(bound: &[String], fallback: &str) -> (r: String)
    ensures
        r@ == if bound@.len() > 0 && bound@[0]@.len() > 0 {
            bound@[0]@
        } else {
            fallback@
        },
{
    if bound.len() > 0 && bound[0].as_str().unicode_len() > 0 {
        bound[0].clone()
    } else {
        to_string(fallback)
    }
}

} // verus!
