//! Envelope field decoding: raw header bytes become normalized text. The
//! raw bytes are read as UTF-8 (lossily), and a MIME encoded-word
//! (`=?charset?enc?content?=`) is decoded when one is present and safe to
//! hand to the decoder; otherwise the lossy text is used as it is.
use vstd::prelude::*;

verus! {

use vstd::std_specs::iter::IteratorSpec;

broadcast use vstd::string::axiom_spec_iter, vstd::string::next_postcondition;

/// What `String::from_utf8_lossy` returns for a given byte sequence.
pub uninterp spec fn lossy_of(b: Seq<u8>) -> Seq<char>;

/// What `email::rfc2047::decode_rfc2047` returns for a given string:
/// `None` where the string is not a decodable MIME encoded word.
pub uninterp spec fn rfc2047_of(s: Seq<char>) -> Option<Seq<char>>;

/// What `chrono::DateTime::parse_from_rfc2822` returns for a given string,
/// taken to seconds since the Unix epoch: `None` where the string is not a
/// valid RFC 2822 date.
pub uninterp spec fn rfc2822_ts_of(s: Seq<char>) -> Option<int>;

/// Relies on String::from_utf8_lossy: the result depends on the bytes alone.
#[verifier::external_body]
fn utf8_lossy(b: &Vec<u8>) -> (r: String)
    ensures
        r@ == lossy_of(b@),
{
    String::from_utf8_lossy(b).into_owned()
}

/// Relies on chrono::DateTime::parse_from_rfc2822 (and timestamp): parsing
/// never panics, returns `Err` on malformed input, and the result depends
/// on the characters alone.
#[verifier::external_body]
fn parse_rfc2822(s: &str) -> (r: Option<i64>)
    ensures
        r is Some <==> rfc2822_ts_of(s@) is Some,
        r is Some ==> r->0 as int == rfc2822_ts_of(s@)->0,
{
    match chrono::DateTime::parse_from_rfc2822(s) {
        Ok(d) => Some(d.timestamp()),
        Err(_) => None,
    }
}

/// How many `'?'` characters `s` holds.
pub open spec fn qmark_count(s: Seq<char>) -> nat
    decreases s.len(),
{
    if s.len() == 0 {
        0
    } else {
        qmark_count(s.drop_last()) + (if s.last() == '?' {
            1nat
        } else {
            0nat
        })
    }
}

/// `j` is the index of the `(k+1)`-th `'?'` of `s`.
pub open spec fn qmark_at(s: Seq<char>, k: nat, j: int) -> bool {
    &&& 0 <= j < s.len()
    &&& s[j] == '?'
    &&& qmark_count(s.take(j)) == k
}

/// The whole string has the `=?charset?enc?content?=` shape that the
/// decoder takes apart: it begins with `=?`, ends with `?=`, and holds
/// exactly four `'?'`.
pub open spec fn has_word_shape(s: Seq<char>) -> bool {
    &&& s.len() >= 6
    &&& s[0] == '='
    &&& s[1] == '?'
    &&& s[s.len() - 2] == '?'
    &&& s[s.len() - 1] == '='
    &&& qmark_count(s) == 4
}

/// The encoding designator the decoder accepts without panicking.
pub open spec fn enc_char_ok(c: char) -> bool {
    c == 'q' || c == 'Q' || c == 'b' || c == 'B'
}

/// A "Q"-encoded designator.
pub open spec fn is_q_enc(c: char) -> bool {
    c == 'q' || c == 'Q'
}

/// The quoted-printable decoder walks `s[i..end]` consuming one character
/// at a time; after an `'='` it unconditionally consumes what follows, so
/// an `'='` too close to the end makes it give up mid-string. This
/// predicate mirrors that consumption and holds only where the walk stays
/// in bounds.
pub open spec fn q_safe_from(s: Seq<char>, i: int, end: int) -> bool
    decreases end - i,
{
    if i >= end {
        true
    } else if s[i] != '=' {
        q_safe_from(s, i + 1, end)
    } else if i + 1 < end && s[i + 1] == '\n' {
        q_safe_from(s, i + 2, end)
    } else {
        i + 3 <= end && q_safe_from(s, i + 3, end)
    }
}

/// The decoder can be handed `s` without panicking: either `s` does not
/// have the encoded-word shape at all (the decoder then returns `None`),
/// or its encoding designator is a single `q`/`b` (in either case) and,
/// for "Q", the content part keeps the quoted-printable walk in bounds.
pub open spec fn rfc2047_safe(s: Seq<char>) -> bool {
    has_word_shape(s) ==> exists|q2: int, q3: int|
        {
            &&& #[trigger] qmark_at(s, 1, q2)
            &&& #[trigger] qmark_at(s, 2, q3)
            &&& q3 == q2 + 2
            &&& enc_char_ok(s[q2 + 1])
            &&& (is_q_enc(s[q2 + 1]) ==> q_safe_from(s, q3 + 1, s.len() - 2))
        }
}

/// Relies on email::rfc2047::decode_rfc2047: on a string without the
/// encoded-word shape it returns `None`; on one with the shape it
/// branches on the encoding designator (panicking on designators other
/// than q/b, and on a "Q" content part whose quoted-printable walk runs
/// out of characters -- `rfc2047_safe` rules both out) and otherwise
/// returns the decoded text, or `None` where charset lookup, base64 or
/// hex decoding fails. The result depends on the characters alone.
#[verifier::external_body]
fn decode_word(s: &str) -> (r: Option<String>)
    requires
        rfc2047_safe(s@),
    ensures
        r is Some <==> rfc2047_of(s@) is Some,
        r is Some ==> r->0@ == rfc2047_of(s@)->0,
{
    email::rfc2047::decode_rfc2047(s)
}

/// `qmark_count` over a one-longer prefix grows by one exactly when the
/// added character is a `'?'`.
proof fn lemma_qcount_step(s: Seq<char>, i: int)
    requires
        0 <= i < s.len(),
    ensures
        qmark_count(s.take(i + 1)) == qmark_count(s.take(i)) + (if s[i] == '?' {
            1nat
        } else {
            0nat
        }),
{
    assert(s.take(i + 1).drop_last() =~= s.take(i));
    assert(s.take(i + 1).last() == s[i]);
}

/// `qmark_count` of a prefix never shrinks as the prefix grows, and grows
/// strictly past an index holding a `'?'`.
proof fn lemma_qcount_mono(s: Seq<char>, a: int, b: int)
    requires
        0 <= a <= b <= s.len(),
    ensures
        qmark_count(s.take(a)) <= qmark_count(s.take(b)),
        a < b && s[a] == '?' ==> qmark_count(s.take(a)) < qmark_count(s.take(b)),
    decreases b - a,
{
    if a < b {
        lemma_qcount_step(s, a);
        lemma_qcount_mono(s, a + 1, b);
    }
}

/// Two indices of the `(k+1)`-th `'?'` are the same index.
proof fn lemma_qmark_at_unique(s: Seq<char>, k: nat, j1: int, j2: int)
    requires
        qmark_at(s, k, j1),
        qmark_at(s, k, j2),
    ensures
        j1 == j2,
{
    if j1 < j2 {
        lemma_qcount_mono(s, j1, j2);
    }
    if j2 < j1 {
        lemma_qcount_mono(s, j2, j1);
    }
}

/// The `(k1+1)`-th `'?'` stands before the `(k2+1)`-th when `k1 < k2`.
proof fn lemma_qmark_at_order(s: Seq<char>, k1: nat, j1: int, k2: nat, j2: int)
    requires
        qmark_at(s, k1, j1),
        qmark_at(s, k2, j2),
        k1 < k2,
    ensures
        j1 < j2,
{
    if j2 <= j1 {
        lemma_qcount_mono(s, j2, j1);
    }
}

/// Does the quoted-printable walk over `cs[start..end]` stay in bounds?
fn q_safe_exec(cs: &Vec<char>, start: usize, end: usize) -> (r: bool)
    requires
        start <= end <= cs.len(),
    ensures
        r == q_safe_from(cs@, start as int, end as int),
{
    let mut i: usize = start;
    while i < end
        invariant
            start <= i <= end <= cs.len(),
            q_safe_from(cs@, start as int, end as int) == q_safe_from(cs@, i as int, end as int),
        decreases end - i,
    {
        if cs[i] == '=' {
            if i + 1 < end && cs[i + 1] == '\n' {
                i = i + 2;
            } else if end - i >= 3 {
                i = i + 3;
            } else {
                return false;
            }
        } else {
            i = i + 1;
        }
    }
    true
}

/// The characters of `s`, in order, as a vector.
fn chars_vec(s: &str) -> (r: Vec<char>)
    ensures
        r@ == s@,
{
    let mut it = s.chars();
    let mut out: Vec<char> = Vec::new();
    loop
        invariant
            it.obeys_prophetic_iter_laws(),
            it.decrease() is Some,
            out@ + it.remaining() == s@,
        ensures
            out@ == s@,
        decreases it.decrease()->0,
    {
        match it.next() {
            Some(c) => {
                out.push(c);
            },
            None => {
                break ;
            },
        }
    }
    out
}

/// May `cs` be handed to the MIME word decoder without it panicking?
fn rfc2047_guard(cs: &Vec<char>) -> (r: bool)
    ensures
        r == rfc2047_safe(cs@),
{
    let ghost s = cs@;
    let n = cs.len();
    let mut count: usize = 0;
    let mut q2: usize = 0;
    let mut q3: usize = 0;
    let mut i: usize = 0;
    while i < n
        invariant
            0 <= i <= n,
            n == cs.len(),
            s == cs@,
            count <= i,
            count == qmark_count(s.take(i as int)),
            count >= 2 ==> qmark_at(s, 1, q2 as int),
            count >= 3 ==> qmark_at(s, 2, q3 as int),
        decreases n - i,
    {
        proof {
            lemma_qcount_step(s, i as int);
        }
        if cs[i] == '?' {
            if count == 1 {
                q2 = i;
            }
            if count == 2 {
                q3 = i;
            }
            count = count + 1;
        }
        i = i + 1;
    }
    proof {
        assert(s.take(n as int) =~= s);
    }
    if !(n >= 6 && count == 4 && cs[0] == '=' && cs[1] == '?' && cs[n - 2] == '?' && cs[n - 1]
        == '=') {
        assert(!has_word_shape(s));
        return true;
    }
    assert(has_word_shape(s));
    assert(qmark_at(s, 1, q2 as int) && qmark_at(s, 2, q3 as int));
    if q3 == q2 + 2 && (cs[q2 + 1] == 'q' || cs[q2 + 1] == 'Q' || cs[q2 + 1] == 'b' || cs[q2 + 1]
        == 'B') {
        if cs[q2 + 1] == 'b' || cs[q2 + 1] == 'B' {
            assert(rfc2047_safe(s));
            true
        } else {
            proof {
                // the fourth '?' stands at n - 2, so the third stands before it
                lemma_qcount_step(s, n - 1);
                lemma_qcount_step(s, n - 2);
                assert(qmark_at(s, 3, n - 2));
                lemma_qmark_at_order(s, 2, q3 as int, 3, n - 2);
            }
            let ok = q_safe_exec(cs, q3 + 1, n - 2);
            if ok {
                assert(rfc2047_safe(s));
            } else {
                assert(!rfc2047_safe(s)) by {
                    assert forall|a: int, b: int|
                        !(qmark_at(s, 1, a) && qmark_at(s, 2, b) && b == a + 2 && enc_char_ok(
                            s[a + 1],
                        ) && (is_q_enc(s[a + 1]) ==> q_safe_from(s, b + 1, s.len() - 2))) by {
                        if qmark_at(s, 1, a) && qmark_at(s, 2, b) {
                            lemma_qmark_at_unique(s, 1, a, q2 as int);
                            lemma_qmark_at_unique(s, 2, b, q3 as int);
                        }
                    }
                }
            }
            ok
        }
    } else {
        assert(!rfc2047_safe(s)) by {
            assert forall|a: int, b: int|
                !(qmark_at(s, 1, a) && qmark_at(s, 2, b) && b == a + 2 && enc_char_ok(s[a + 1]) && (
                is_q_enc(s[a + 1]) ==> q_safe_from(s, b + 1, s.len() - 2))) by {
                if qmark_at(s, 1, a) && qmark_at(s, 2, b) {
                    lemma_qmark_at_unique(s, 1, a, q2 as int);
                    lemma_qmark_at_unique(s, 2, b, q3 as int);
                }
            }
        }
        false
    }
}

/// The normalized text of one raw header field: the bytes read lossily as
/// UTF-8, with a successful (and safe) MIME encoded-word decode applied
/// on top where there is one.
pub open spec fn decoded_of(raw: Seq<u8>) -> Seq<char> {
    let c = lossy_of(raw);
    if rfc2047_safe(c) && rfc2047_of(c) is Some {
        rfc2047_of(c)->0
    } else {
        c
    }
}

/// The raw envelope metadata of one message, as fetched: each field holds
/// the undecoded header bytes, or nothing where the server sent no such
/// field. `from_name` is the display name of the first "from" address.
pub struct Envelope {
    pub subject: Option<Vec<u8>>,
    pub from_name: Option<Vec<u8>>,
    pub date: Option<Vec<u8>>,
}

/// One message readied for classification: identifier, decoded sender
/// display name and subject, and receipt time in seconds since the epoch.
/// The identifier is server-assigned and connection-scoped; it is only
/// valid until the next mutating operation on the mailbox.
pub struct CandidateMessage {
    pub uid: u32,
    pub sender: String,
    pub subject: String,
    pub date_ts: i64,
}

/// The decoded subject, where the envelope carries one.
pub fn get_subject(env: &Envelope) -> (r: Option<String>)
    ensures
        r is Some <==> env.subject is Some,
        r matches Some(v) ==> v@ == decoded_of(env.subject->0@),
{
    match &env.subject {
        Some(raw) => Some(decode_header(raw)),
        None => None,
    }
}

/// The decoded sender display name, where the envelope carries one.
pub fn get_from(env: &Envelope) -> (r: Option<String>)
    ensures
        r is Some <==> env.from_name is Some,
        r matches Some(v) ==> v@ == decoded_of(env.from_name->0@),
{
    match &env.from_name {
        Some(raw) => Some(decode_header(raw)),
        None => None,
    }
}

/// The receipt time of the envelope, where its date field is present and
/// is a well-formed RFC 2822 date once decoded.
pub open spec fn date_of(env: Envelope) -> Option<int> {
    match env.date {
        Some(raw) => rfc2822_ts_of(decoded_of(raw@)),
        None => None,
    }
}

/// The receipt time in seconds since the epoch, where the envelope
/// carries a well-formed date.
pub fn get_date(env: &Envelope) -> (r: Option<i64>)
    ensures
        r is Some <==> date_of(*env) is Some,
        r matches Some(t) ==> t as int == date_of(*env)->0,
{
    match &env.date {
        Some(raw) => {
            let decoded = decode_header(raw);
            parse_rfc2822(decoded.as_str())
        },
        None => None,
    }
}

/// A candidate is extracted from an envelope exactly when all three
/// fields are present and the date parses.
pub open spec fn extractable(env: Envelope) -> bool {
    &&& env.subject is Some
    &&& env.from_name is Some
    &&& date_of(env) is Some
}

/// Extract the candidate message for one fetched envelope, or nothing
/// where a field is missing or malformed (such a message is skipped
/// rather than aborting the scan).
pub fn extract_candidate(uid: u32, env: &Envelope) -> (r: Option<CandidateMessage>)
    ensures
        r is Some <==> extractable(*env),
        r matches Some(m) ==> {
            &&& m.uid == uid
            &&& m.sender@ == decoded_of(env.from_name->0@)
            &&& m.subject@ == decoded_of(env.subject->0@)
            &&& m.date_ts as int == date_of(*env)->0
        },
{
    let subject = match get_subject(env) {
        Some(s) => s,
        None => { return None; },
    };
    let sender = match get_from(env) {
        Some(s) => s,
        None => { return None; },
    };
    let date_ts = match get_date(env) {
        Some(t) => t,
        None => { return None; },
    };
    Some(CandidateMessage { uid, sender, subject, date_ts })
}

/// Decode one raw header field into normalized text.
pub fn decode_header(raw: &Vec<u8>) -> (r: String)
    ensures
        r@ == decoded_of(raw@),
{
    let s = utf8_lossy(raw);
    let cs = chars_vec(s.as_str());
    if rfc2047_guard(&cs) {
        match decode_word(s.as_str()) {
            Some(d) => d,
            None => s,
        }
    } else {
        s
    }
}

} // verus!
