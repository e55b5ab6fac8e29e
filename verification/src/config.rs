//! The immutable configuration, loaded once at startup and passed by
//! reference into every component; nothing re-reads it per call.
use vstd::prelude::*;

verus! {

/// Everything the process is told at startup: where the mailbox lives,
/// how to authenticate, how often to poll, when mail counts as stale,
/// where the two allow-lists are stored, and which sound to play.
pub struct Config {
    pub server: String,
    pub port: u16,
    pub username: String,
    pub password: String,
    pub mailbox: String,
    pub refresh_rate: u64,
    pub allowed_people: String,
    pub triggering_subjects: String,
    pub mail_expiration_secs: u32,
    pub audio_file: String,
}

} // verus!
