//! Pure classification rules: is the sender on the allow-list, does the
//! subject fuzzy-match a trigger phrase, and is the message already stale.
use vstd::prelude::*;

verus! {

/// Minimum of three natural numbers.
pub open spec fn min3(a: nat, b: nat, c: nat) -> nat {
    if a <= b && a <= c {
        a
    } else if b <= c {
        b
    } else {
        c
    }
}

/// Levenshtein edit distance between two character sequences: the least
/// number of single-character insertions, deletions and substitutions
/// that turns `a` into `b`.
pub open spec fn levenshtein(a: Seq<char>, b: Seq<char>) -> nat
    decreases a.len() + b.len(),
{
    if a.len() == 0 {
        b.len()
    } else if b.len() == 0 {
        a.len()
    } else if a[0] == b[0] {
        levenshtein(a.skip(1), b.skip(1))
    } else {
        1 + min3(
            levenshtein(a.skip(1), b),
            levenshtein(a, b.skip(1)),
            levenshtein(a.skip(1), b.skip(1)),
        )
    }
}

/// What `str::to_lowercase` returns for a given character sequence.
pub uninterp spec fn lower_of(s: Seq<char>) -> Seq<char>;

/// Relies on str::to_lowercase: the result depends on the characters alone.
#[verifier::external_body]
fn lowercase(s: &str) -> (r: String)
    ensures
        r@ == lower_of(s@),
{
    s.to_lowercase()
}

/// Relies on edit_distance::edit_distance: by its documentation it returns
/// the Levenshtein distance (single-character inserts, deletes and
/// substitutions) between the two strings, computed over their characters.
#[verifier::external_body]
fn edit_distance_of(a: &str, b: &str) -> (r: usize)
    ensures
        r == levenshtein(a@, b@),
{
    edit_distance::edit_distance(a, b)
}

/// The sender's display name appears verbatim (case-sensitive, no
/// normalization) in the allow-list.
pub open spec fn spec_allowed(person: Seq<char>, list: Seq<Seq<char>>) -> bool {
    exists|i: int| 0 <= i < list.len() && list[i] == person
}

/// Some trigger phrase is within edit distance 2 of the lower-cased
/// subject; the phrase itself is compared as written.
pub open spec fn spec_triggering(subject: Seq<char>, list: Seq<Seq<char>>) -> bool {
    exists|i: int| 0 <= i < list.len() && levenshtein(lower_of(subject), list[i]) <= 2
}

/// A sequence is at distance zero from itself.
proof fn lemma_levenshtein_self(a: Seq<char>)
    ensures
        levenshtein(a, a) == 0,
    decreases a.len(),
{
    if a.len() > 0 {
        lemma_levenshtein_self(a.skip(1));
    }
}

/// An exact match always triggers: where some entry of the trigger list
/// equals the lower-cased subject, the subject is triggering.
pub proof fn lemma_exact_match_triggers(subject: Seq<char>, list: Seq<Seq<char>>, i: int)
    requires
        0 <= i < list.len(),
        list[i] == lower_of(subject),
    ensures
        spec_triggering(subject, list),
{
    lemma_levenshtein_self(lower_of(subject));
}

/// True iff `now - date` (in seconds) strictly exceeds `limit`. A message
/// whose age equals the limit exactly is not stale, and a future-dated
/// message (negative difference) never is.
pub open spec fn spec_is_stale(date_ts: int, now_ts: int, limit_secs: int) -> bool {
    now_ts - date_ts > limit_secs
}

/// Exact, case-sensitive membership of the sender name in the allow-list.
pub fn person_allowed(person: &String, allowed_people: &Vec<String>) -> (r: bool)
    ensures
        r == spec_allowed(person@, allowed_people@.map_values(|s: String| s@)),
{
    let ghost view: Seq<Seq<char>> = allowed_people@.map_values(|s: String| s@);
    let mut i: usize = 0;
    while i < allowed_people.len()
        invariant
            0 <= i <= allowed_people.len(),
            view == allowed_people@.map_values(|s: String| s@),
            forall|j: int| 0 <= j < i ==> view[j] != person@,
        decreases allowed_people.len() - i,
    {
        assert(view[i as int] == allowed_people@[i as int]@);
        if allowed_people[i].eq(person) {
            return true;
        }
        i = i + 1;
    }
    false
}

/// Fuzzy trigger match: lower-case the subject, then accept if any entry
/// of the trigger list is within Levenshtein distance 2 of it.
pub fn subject_is_triggering(subject: &str, allowed_subjects: &Vec<String>) -> (r: bool)
    ensures
        r == spec_triggering(subject@, allowed_subjects@.map_values(|s: String| s@)),
{
    let lowered = lowercase(subject);
    let ghost view: Seq<Seq<char>> = allowed_subjects@.map_values(|s: String| s@);
    let mut i: usize = 0;
    while i < allowed_subjects.len()
        invariant
            0 <= i <= allowed_subjects.len(),
            lowered@ == lower_of(subject@),
            view == allowed_subjects@.map_values(|s: String| s@),
            forall|j: int| 0 <= j < i ==> levenshtein(lower_of(subject@), view[j]) > 2,
        decreases allowed_subjects.len() - i,
    {
        assert(view[i as int] == allowed_subjects@[i as int]@);
        if edit_distance_of(lowered.as_str(), allowed_subjects[i].as_str()) <= 2 {
            return true;
        }
        i = i + 1;
    }
    false
}

/// Is the message older than the expiration threshold? The boundary is
/// strict, and the subtraction is done over a wide integer, so clock skew
/// cannot wrap around.
pub fn mail_too_old(date_ts: i64, now_ts: i64, limit_secs: u32) -> (r: bool)
    ensures
        r == spec_is_stale(date_ts as int, now_ts as int, limit_secs as int),
{
    let age: i128 = now_ts as i128 - date_ts as i128;
    age > limit_secs as i128
}

/// The verdict on one candidate message: pure function of the message,
/// the two allow-lists and the current time.
#[derive(PartialEq, Eq, Structural, Clone, Copy, Debug)]
pub struct ClassificationResult {
    pub allowed: bool,
    pub triggering: bool,
    pub stale: bool,
}

/// Classify one candidate message against the two allow-lists and the
/// expiration threshold.
pub fn classify(
    sender: &String,
    subject: &String,
    date_ts: i64,
    now_ts: i64,
    limit_secs: u32,
    allowed_people: &Vec<String>,
    triggering_subjects: &Vec<String>,
) -> (r: ClassificationResult)
    ensures
        r.allowed == spec_allowed(sender@, allowed_people@.map_values(|s: String| s@)),
        r.triggering == spec_triggering(subject@, triggering_subjects@.map_values(|s: String| s@)),
        r.stale == spec_is_stale(date_ts as int, now_ts as int, limit_secs as int),
{
    ClassificationResult {
        allowed: person_allowed(sender, allowed_people),
        triggering: subject_is_triggering(subject.as_str(), triggering_subjects),
        stale: mail_too_old(date_ts, now_ts, limit_secs),
    }
}

} // verus!
