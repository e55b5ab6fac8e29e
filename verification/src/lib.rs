//! A verified core for a mailbox-watching agent: it classifies unseen
//! messages against two allow-lists (trusted senders, trigger subjects),
//! decodes envelope header fields, and drives the reconnect / scan / idle
//! state machine whose actions an unverified shell performs.
pub mod classify;
pub mod config;
pub mod conn;
pub mod envelope;
pub mod lists;
pub mod watcher;
