//! The daemon's D-Bus names and the calls the front ends make on it.

use vstd::prelude::*;

verus! {

/// The daemon's well-known bus name.
pub const SERVICE_NAME: &'static str = "org.transcriber.Daemon";

/// The object the daemon serves its interface at.
pub const OBJECT_PATH: &'static str = "/org/transcriber/Daemon";

/// The daemon's interface.
pub const INTERFACE_NAME: &'static str = "org.transcriber.Daemon";

/// Timeout of quick bookkeeping calls, in milliseconds.
pub const SHORT_TIMEOUT_MS: i32 = 5000;

/// Timeout of a retried transcription, which re-uploads the recording and
/// may post-process it: five minutes.
pub const RETRY_TIMEOUT_MS: i32 = 300000;

/// The call sent, without waiting for a reply, when the settings app shuts
/// down: the daemon re-reads the configuration.
pub fn reload_config_no_reply() -> (method: &'static str)
    ensures
        method@ == "ReloadConfig"@,
{
    "ReloadConfig"
}

} // verus!
