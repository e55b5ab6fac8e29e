use mailwatch::conn::conn_action;
use mailwatch::conn::conn_step;
use mailwatch::conn::ConnAction;
use mailwatch::conn::ConnPhase;
use mailwatch::envelope::Envelope;
use mailwatch::lists::parse_json_to_vector;
use mailwatch::watcher::next_action;
use mailwatch::watcher::on_envelope;
use mailwatch::watcher::on_idle_result;
use mailwatch::watcher::on_move_result;
use mailwatch::watcher::on_search_result;
use mailwatch::watcher::target_folder;
use mailwatch::watcher::Action;
use mailwatch::watcher::Fetched;
use mailwatch::watcher::MoveDirective;
use mailwatch::watcher::Outcome;
use mailwatch::watcher::Phase;

fn list(items: &[&str]) -> Vec<String> {
    items.iter().map(|s| s.to_string()).collect()
}

fn matching_envelope() -> Envelope {
    Envelope {
        subject: Some(b"Pizza delivery".to_vec()),
        from_name: Some(b"Alice".to_vec()),
        // receipt time: 10 seconds past the epoch
        date: Some(b"Thu, 1 Jan 1970 00:00:10 +0000".to_vec()),
    }
}

fn step_envelope(batch: Vec<u32>, idx: usize, f: Fetched, now: i64, limit: u32) -> (Outcome, Option<MoveDirective>) {
    on_envelope(batch, idx, &f, now, limit, &list(&["Alice"]), &list(&["pizza delivery"]))
}

#[test]
fn match_moves_first_message_and_restarts_the_scan() {
    // message #1 of the batch matches: it is moved and the rest of the
    // batch is abandoned for a fresh scan, not continued at message #2
    let (o, mv) = step_envelope(vec![1, 2, 3], 0, Fetched::Got(matching_envelope()), 20, 60);
    assert!(matches!(o, Outcome::Continue(Phase::Search)));
    let d = mv.expect("a match directs a move");
    assert_eq!(d.uid, 1);
}

#[test]
fn fresh_match_notifies_and_stale_match_does_not() {
    // age 10s, limit 60s: fresh, so move and notify
    let (_, mv) = step_envelope(vec![5], 0, Fetched::Got(matching_envelope()), 20, 60);
    assert_eq!(mv, Some(MoveDirective { uid: 5, notify: true }));
    // age 100s, limit 60s: stale, so move without notifying
    let (o, mv2) = step_envelope(vec![5], 0, Fetched::Got(matching_envelope()), 110, 60);
    assert!(matches!(o, Outcome::Continue(Phase::Search)));
    assert_eq!(mv2, Some(MoveDirective { uid: 5, notify: false }));
}

#[test]
fn non_match_skips_to_the_next_message() {
    let mut env = matching_envelope();
    env.from_name = Some(b"Mallory".to_vec());
    let (o, mv) = step_envelope(vec![1, 2, 3], 1, Fetched::Got(env), 20, 60);
    assert!(mv.is_none());
    match o {
        Outcome::Continue(Phase::Scan { batch, idx }) => {
            assert_eq!(batch, vec![1, 2, 3]);
            assert_eq!(idx, 2);
        },
        _ => panic!("a non-match continues the batch"),
    }
}

#[test]
fn unextractable_envelope_is_skipped_not_fatal() {
    let mut env = matching_envelope();
    env.subject = None;
    let (o, mv) = step_envelope(vec![4, 9], 0, Fetched::Got(env), 20, 60);
    assert!(mv.is_none());
    assert!(matches!(o, Outcome::Continue(Phase::Scan { idx: 1, .. })));
    let (o2, _) = step_envelope(vec![4, 9], 0, Fetched::NoEnvelope, 20, 60);
    assert!(matches!(o2, Outcome::Continue(Phase::Scan { idx: 1, .. })));
}

#[test]
fn fetch_failure_is_connection_fatal() {
    let (o, mv) = step_envelope(vec![4], 0, Fetched::Failed, 20, 60);
    assert!(mv.is_none());
    assert!(matches!(o, Outcome::ConnectionLost));
}

#[test]
fn empty_mailbox_cycles_through_idle_and_back() {
    // search an empty mailbox, walk the (empty) batch, idle, and search again
    assert_eq!(next_action(&Phase::Search, 10), Action::SearchUnseen);
    let o = on_search_result(Some(vec![]));
    let p = match o {
        Outcome::Continue(p) => p,
        _ => panic!("a scan result continues the session"),
    };
    assert_eq!(next_action(&p, 10), Action::StartIdle { secs: 10 });
    assert!(matches!(on_idle_result(true), Outcome::Continue(Phase::Search)));
}

#[test]
fn scan_walks_the_batch_in_server_order() {
    let p = Phase::Scan { batch: vec![7, 3], idx: 0 };
    assert_eq!(next_action(&p, 10), Action::FetchEnvelope { uid: 7 });
    let p2 = Phase::Scan { batch: vec![7, 3], idx: 1 };
    assert_eq!(next_action(&p2, 10), Action::FetchEnvelope { uid: 3 });
}

#[test]
fn search_idle_and_move_failures_lose_the_connection() {
    assert!(matches!(on_search_result(None), Outcome::ConnectionLost));
    assert!(matches!(on_idle_result(false), Outcome::ConnectionLost));
    assert!(matches!(on_move_result(false), Outcome::ConnectionLost));
    assert!(matches!(on_move_result(true), Outcome::Continue(Phase::Search)));
}

#[test]
fn target_folder_is_fixed() {
    assert_eq!(target_folder(), "Jedzenie");
}

#[test]
fn reconnect_goes_through_a_fresh_selection() {
    // a failed login sleeps, then retries from a fresh transport
    assert_eq!(conn_step(ConnPhase::LoggingIn, false), ConnPhase::Sleeping);
    assert_eq!(conn_action(ConnPhase::Sleeping, 10), ConnAction::Sleep { secs: 10 });
    assert_eq!(conn_step(ConnPhase::Sleeping, true), ConnPhase::Connecting);
    assert_eq!(conn_step(ConnPhase::Connecting, true), ConnPhase::LoggingIn);
    assert_eq!(conn_step(ConnPhase::LoggingIn, true), ConnPhase::Selecting);
    assert_eq!(conn_step(ConnPhase::Selecting, true), ConnPhase::Watching);
    // the watcher hands control back only by losing the session
    assert_eq!(conn_step(ConnPhase::Watching, false), ConnPhase::Sleeping);
    // a transport or selection failure sleeps as well
    assert_eq!(conn_step(ConnPhase::Connecting, false), ConnPhase::Sleeping);
    assert_eq!(conn_step(ConnPhase::Selecting, false), ConnPhase::Sleeping);
}

#[test]
fn allow_lists_parse_from_json_bytes() {
    let ok = parse_json_to_vector(&b"[\"alice\", \"bob\"]".to_vec());
    assert_eq!(ok, Ok(vec!["alice".to_string(), "bob".to_string()]));
    let empty = parse_json_to_vector(&b"[]".to_vec());
    assert_eq!(empty, Ok(vec![]));
    assert!(parse_json_to_vector(&b"not json".to_vec()).is_err());
    assert!(parse_json_to_vector(&b"[1, 2]".to_vec()).is_err());
    assert!(parse_json_to_vector(&b"{\"a\": 1}".to_vec()).is_err());
}
