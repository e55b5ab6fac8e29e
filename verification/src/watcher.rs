//! The scan/idle cycle over one selected mailbox, as a state machine: the
//! unverified shell performs one action at a time (search, fetch, move,
//! idle) and feeds the result back in; these functions decide what happens
//! next. A move invalidates every other identifier of the current batch,
//! so a match always abandons the batch and restarts the scan.
use vstd::prelude::*;
use crate::classify::classify;
use crate::classify::spec_allowed;
use crate::classify::spec_is_stale;
use crate::classify::spec_triggering;
use crate::envelope::CandidateMessage;
use crate::envelope::Envelope;
use crate::envelope::date_of;
use crate::envelope::decoded_of;
use crate::envelope::extract_candidate;
use crate::envelope::extractable;

verus! {

/// Where the watcher stands: about to request a scan, or working through
/// the batch an earlier scan returned, from position `idx` on.
pub enum Phase {
    Search,
    Scan { batch: Vec<u32>, idx: usize },
}

/// The ghost value of a `Phase`.
pub enum PhaseV {
    Search,
    Scan { batch: Seq<u32>, idx: int },
}

impl View for Phase {
    type V = PhaseV;

    open spec fn view(&self) -> PhaseV {
        match self {
            Phase::Search => PhaseV::Search,
            Phase::Scan { batch, idx } => PhaseV::Scan { batch: batch@, idx: *idx as int },
        }
    }
}

/// What the shell must do next.
#[derive(PartialEq, Eq, Structural, Clone, Copy, Debug)]
pub enum Action {
    SearchUnseen,
    FetchEnvelope { uid: u32 },
    StartIdle { secs: u64 },
}

/// Move the message to the target folder (copy, flag deleted, expunge --
/// one logical action), and, where `notify` holds, also fire the
/// notification sound without blocking.
#[derive(PartialEq, Eq, Structural, Clone, Copy, Debug)]
pub struct MoveDirective {
    pub uid: u32,
    pub notify: bool,
}

/// Whether the session survives the step: on any protocol failure the
/// session is discarded and control returns to the connection manager.
pub enum Outcome {
    Continue(Phase),
    ConnectionLost,
}

/// The ghost value of an `Outcome`.
pub enum OutcomeV {
    Continue(PhaseV),
    ConnectionLost,
}

impl View for Outcome {
    type V = OutcomeV;

    open spec fn view(&self) -> OutcomeV {
        match self {
            Outcome::Continue(p) => OutcomeV::Continue(p@),
            Outcome::ConnectionLost => OutcomeV::ConnectionLost,
        }
    }
}

/// What one envelope fetch came back with: a protocol failure, a message
/// without envelope metadata, or the envelope itself.
pub enum Fetched {
    Failed,
    NoEnvelope,
    Got(Envelope),
}

/// The fixed folder a matching message is moved to.
pub fn target_folder() -> (r: &'static str)
    ensures
        r@ == "Jedzenie"@,
{
    "Jedzenie"
}

/// The action each phase calls for: a scan request, the fetch of the
/// envelope at the current batch position, or -- once the batch is
/// exhausted without a match -- a bounded idle wait of the refresh
/// interval.
pub open spec fn spec_next_action(p: PhaseV, refresh_secs: u64) -> Action {
    match p {
        PhaseV::Search => Action::SearchUnseen,
        PhaseV::Scan { batch, idx } => if idx < batch.len() {
            Action::FetchEnvelope { uid: batch[idx] }
        } else {
            Action::StartIdle { secs: refresh_secs }
        },
    }
}

/// The action to perform in phase `p`.
pub fn next_action(p: &Phase, refresh_secs: u64) -> (a: Action)
    ensures
        a == spec_next_action(p@, refresh_secs),
{
    match p {
        Phase::Search => Action::SearchUnseen,
        Phase::Scan { batch, idx } => {
            if *idx < batch.len() {
                Action::FetchEnvelope { uid: batch[*idx] }
            } else {
                Action::StartIdle { secs: refresh_secs }
            }
        },
    }
}

/// A scan result starts a pass over the returned batch in server order;
/// a scan failure is connection-fatal.
pub open spec fn spec_on_search_result(r: Option<Seq<u32>>) -> OutcomeV {
    match r {
        Some(batch) => OutcomeV::Continue(PhaseV::Scan { batch, idx: 0 }),
        None => OutcomeV::ConnectionLost,
    }
}

/// Take delivery of a scan result (`None` is a protocol failure).
pub fn on_search_result(r: Option<Vec<u32>>) -> (o: Outcome)
    ensures
        o@ == spec_on_search_result(match r {
            Some(batch) => Some(batch@),
            None => None,
        }),
{
    match r {
        Some(batch) => Outcome::Continue(Phase::Scan { batch, idx: 0 }),
        None => Outcome::ConnectionLost,
    }
}

/// The envelope matches: all fields extractable, the sender on the
/// allow-list and the subject within edit distance 2 of a trigger phrase.
pub open spec fn spec_matches(env: Envelope, people: Seq<Seq<char>>, trigs: Seq<Seq<char>>) -> bool {
    &&& extractable(env)
    &&& spec_allowed(decoded_of(env.from_name->0@), people)
    &&& spec_triggering(decoded_of(env.subject->0@), trigs)
}

/// What one envelope does to the scan: a fetch failure is fatal; a
/// missing or unextractable envelope is skipped; a match moves the
/// message (notifying only while fresh) and abandons the rest of the
/// batch, whose identifiers the move invalidates.
pub open spec fn spec_on_envelope(
    batch: Seq<u32>,
    idx: int,
    fetched: Fetched,
    now_ts: int,
    limit_secs: int,
    people: Seq<Seq<char>>,
    trigs: Seq<Seq<char>>,
) -> (OutcomeV, Option<MoveDirective>) {
    match fetched {
        Fetched::Failed => (OutcomeV::ConnectionLost, None),
        Fetched::NoEnvelope => (OutcomeV::Continue(PhaseV::Scan { batch, idx: idx + 1 }), None),
        Fetched::Got(env) => if spec_matches(env, people, trigs) {
            (
                OutcomeV::Continue(PhaseV::Search),
                Some(
                    MoveDirective {
                        uid: batch[idx],
                        notify: !spec_is_stale(date_of(env)->0, now_ts, limit_secs),
                    },
                ),
            )
        } else {
            (OutcomeV::Continue(PhaseV::Scan { batch, idx: idx + 1 }), None)
        },
    }
}

/// Process the envelope fetched for position `idx` of the batch. The
/// allow-lists were re-read for this very step, so edits to their backing
/// store take effect message by message.
pub fn on_envelope(
    batch: Vec<u32>,
    idx: usize,
    fetched: &Fetched,
    now_ts: i64,
    limit_secs: u32,
    allowed_people: &Vec<String>,
    triggering_subjects: &Vec<String>,
) -> (r: (Outcome, Option<MoveDirective>))
    requires
        idx < batch@.len(),
    ensures
        (r.0@, r.1) == spec_on_envelope(
            batch@,
            idx as int,
            *fetched,
            now_ts as int,
            limit_secs as int,
            allowed_people@.map_values(|s: String| s@),
            triggering_subjects@.map_values(|s: String| s@),
        ),
{
    // fix the batch length in scope: idx + 1 then stays within usize
    let n = batch.len();
    match fetched {
        Fetched::Failed => (Outcome::ConnectionLost, None),
        Fetched::NoEnvelope => (Outcome::Continue(Phase::Scan { batch, idx: idx + 1 }), None),
        Fetched::Got(env) => {
            let uid = batch[idx];
            match extract_candidate(uid, env) {
                None => (Outcome::Continue(Phase::Scan { batch, idx: idx + 1 }), None),
                Some(m) => {
                    let verdict = classify(
                        &m.sender,
                        &m.subject,
                        m.date_ts,
                        now_ts,
                        limit_secs,
                        allowed_people,
                        triggering_subjects,
                    );
                    if verdict.allowed && verdict.triggering {
                        (
                            Outcome::Continue(Phase::Search),
                            Some(MoveDirective { uid, notify: !verdict.stale }),
                        )
                    } else {
                        (Outcome::Continue(Phase::Scan { batch, idx: idx + 1 }), None)
                    }
                },
            }
        },
    }
}

/// A completed move restarts the scan from the beginning; a failed one is
/// connection-fatal (the mailbox may be half-mutated).
pub open spec fn spec_on_move_result(ok: bool) -> OutcomeV {
    if ok {
        OutcomeV::Continue(PhaseV::Search)
    } else {
        OutcomeV::ConnectionLost
    }
}

/// Take delivery of the move outcome.
pub fn on_move_result(ok: bool) -> (o: Outcome)
    ensures
        o@ == spec_on_move_result(ok),
{
    if ok {
        Outcome::Continue(Phase::Search)
    } else {
        Outcome::ConnectionLost
    }
}

/// Any idle wake-up -- a server push or the timeout alike -- restarts the
/// scan; an idle failure is connection-fatal.
pub open spec fn spec_on_idle_result(ok: bool) -> OutcomeV {
    if ok {
        OutcomeV::Continue(PhaseV::Search)
    } else {
        OutcomeV::ConnectionLost
    }
}

/// Take delivery of the idle outcome.
pub fn on_idle_result(ok: bool) -> (o: Outcome)
    ensures
        o@ == spec_on_idle_result(ok),
{
    if ok {
        Outcome::Continue(Phase::Search)
    } else {
        Outcome::ConnectionLost
    }
}

/// With no new unseen mail the cycle is a fixed point: a scan of an empty
/// batch asks for an idle wait of the refresh interval, the idle timeout
/// restarts the scan, and no message is ever moved along the way.
pub proof fn lemma_empty_mailbox_cycle(refresh_secs: u64)
    ensures
        spec_next_action(PhaseV::Search, refresh_secs) == Action::SearchUnseen,
        spec_on_search_result(Some(Seq::<u32>::empty())) == OutcomeV::Continue(
            PhaseV::Scan { batch: Seq::<u32>::empty(), idx: 0 },
        ),
        spec_next_action(PhaseV::Scan { batch: Seq::<u32>::empty(), idx: 0 }, refresh_secs)
            == (Action::StartIdle { secs: refresh_secs }),
        spec_on_idle_result(true) == OutcomeV::Continue(PhaseV::Search),
{
}

/// A match abandons the batch: whatever still stood after position `idx`
/// is never fetched, the next action is a fresh scan.
pub proof fn lemma_match_restarts_scan(
    batch: Seq<u32>,
    idx: int,
    env: Envelope,
    now_ts: int,
    limit_secs: int,
    people: Seq<Seq<char>>,
    trigs: Seq<Seq<char>>,
    refresh_secs: u64,
)
    requires
        0 <= idx < batch.len(),
        spec_matches(env, people, trigs),
    ensures
        ({
            let (o, mv) = spec_on_envelope(
                batch,
                idx,
                Fetched::Got(env),
                now_ts,
                limit_secs,
                people,
                trigs,
            );
            &&& o == OutcomeV::Continue(PhaseV::Search)
            &&& spec_next_action(PhaseV::Search, refresh_secs) == Action::SearchUnseen
            &&& mv matches Some(d) && d.uid == batch[idx]
            &&& mv->0.notify == !spec_is_stale(date_of(env)->0, now_ts, limit_secs)
        }),
{
}

} // verus!
