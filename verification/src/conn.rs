//! The outermost loop: establish a transport, authenticate, select the
//! mailbox, hand the session to the watcher, and on a failure at any step
//! sleep for the fixed refresh interval and start over from scratch. All
//! failures -- transport, authentication, selection, or a protocol error
//! surfaced by the watcher -- are treated identically: recoverable by a
//! full reconnect, retried forever with no backoff and no retry cap.
use vstd::prelude::*;

verus! {

/// Where the connection manager stands. Each phase names the step whose
/// outcome it waits for; `Sleeping` is the fixed delay before a retry.
#[derive(PartialEq, Eq, Structural, Clone, Copy, Debug)]
pub enum ConnPhase {
    Connecting,
    LoggingIn,
    Selecting,
    Watching,
    Sleeping,
}

/// What the shell must do in each phase.
#[derive(PartialEq, Eq, Structural, Clone, Copy, Debug)]
pub enum ConnAction {
    BuildTransport,
    Login,
    SelectMailbox,
    RunWatcher,
    Sleep { secs: u64 },
}

/// The action each phase calls for; the retry delay is the configured
/// refresh interval.
pub open spec fn spec_conn_action(p: ConnPhase, refresh_secs: u64) -> ConnAction {
    match p {
        ConnPhase::Connecting => ConnAction::BuildTransport,
        ConnPhase::LoggingIn => ConnAction::Login,
        ConnPhase::Selecting => ConnAction::SelectMailbox,
        ConnPhase::Watching => ConnAction::RunWatcher,
        ConnPhase::Sleeping => ConnAction::Sleep { secs: refresh_secs },
    }
}

/// The action to perform in phase `p`.
pub fn conn_action(p: ConnPhase, refresh_secs: u64) -> (a: ConnAction)
    ensures
        a == spec_conn_action(p, refresh_secs),
{
    match p {
        ConnPhase::Connecting => ConnAction::BuildTransport,
        ConnPhase::LoggingIn => ConnAction::Login,
        ConnPhase::Selecting => ConnAction::SelectMailbox,
        ConnPhase::Watching => ConnAction::RunWatcher,
        ConnPhase::Sleeping => ConnAction::Sleep { secs: refresh_secs },
    }
}

/// One step of the outer loop. Success walks the chain transport, login,
/// selection, watching; any failure falls to the fixed-delay sleep, after
/// which everything restarts from the transport. The watcher only returns
/// when its session is lost, so leaving `Watching` always reconnects,
/// and a session is never reused.
pub open spec fn spec_conn_step(p: ConnPhase, ok: bool) -> ConnPhase {
    match p {
        ConnPhase::Connecting => if ok {
            ConnPhase::LoggingIn
        } else {
            ConnPhase::Sleeping
        },
        ConnPhase::LoggingIn => if ok {
            ConnPhase::Selecting
        } else {
            ConnPhase::Sleeping
        },
        ConnPhase::Selecting => if ok {
            ConnPhase::Watching
        } else {
            ConnPhase::Sleeping
        },
        ConnPhase::Watching => ConnPhase::Sleeping,
        ConnPhase::Sleeping => ConnPhase::Connecting,
    }
}

/// Advance the outer loop by the outcome of the phase's action.
pub fn conn_step(p: ConnPhase, ok: bool) -> (r: ConnPhase)
    ensures
        r == spec_conn_step(p, ok),
{
    match p {
        ConnPhase::Connecting => if ok {
            ConnPhase::LoggingIn
        } else {
            ConnPhase::Sleeping
        },
        ConnPhase::LoggingIn => if ok {
            ConnPhase::Selecting
        } else {
            ConnPhase::Sleeping
        },
        ConnPhase::Selecting => if ok {
            ConnPhase::Watching
        } else {
            ConnPhase::Sleeping
        },
        ConnPhase::Watching => ConnPhase::Sleeping,
        ConnPhase::Sleeping => ConnPhase::Connecting,
    }
}

/// No stale session is ever reused: scanning is entered only through a
/// successful mailbox selection, every failure first serves the fixed
/// delay, and the retry after the delay starts from a fresh transport --
/// so a failure reaches the watcher again only through the whole chain
/// of transport, login and selection.
pub proof fn lemma_fresh_session_on_retry(refresh_secs: u64)
    ensures
        forall|p: ConnPhase, ok: bool| #[trigger] spec_conn_step(p, ok) is Watching ==> p
            is Selecting && ok,
        forall|p: ConnPhase| p != ConnPhase::Sleeping ==> spec_conn_step(p, false)
            is Sleeping,
        spec_conn_action(ConnPhase::Sleeping, refresh_secs) == (ConnAction::Sleep {
            secs: refresh_secs,
        }),
        spec_conn_step(ConnPhase::Sleeping, true) is Connecting,
        spec_conn_step(ConnPhase::Connecting, true) is LoggingIn,
        spec_conn_step(ConnPhase::LoggingIn, true) is Selecting,
        spec_conn_step(ConnPhase::Selecting, true) is Watching,
{
}

} // verus!
