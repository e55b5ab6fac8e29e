use mailwatch::envelope::decode_header;
use mailwatch::envelope::extract_candidate;
use mailwatch::envelope::get_date;
use mailwatch::envelope::get_from;
use mailwatch::envelope::get_subject;
use mailwatch::envelope::Envelope;

fn env(subject: Option<&[u8]>, from: Option<&[u8]>, date: Option<&[u8]>) -> Envelope {
    Envelope {
        subject: subject.map(|b| b.to_vec()),
        from_name: from.map(|b| b.to_vec()),
        date: date.map(|b| b.to_vec()),
    }
}

#[test]
fn plain_header_passes_through() {
    assert_eq!(decode_header(&b"pizza delivery".to_vec()), "pizza delivery");
    assert_eq!(decode_header(&b"".to_vec()), "");
}

#[test]
fn q_encoded_word_is_decoded() {
    assert_eq!(
        decode_header(&b"=?utf-8?q?hello=20world?=".to_vec()),
        "hello world"
    );
    assert_eq!(decode_header(&b"=?utf-8?Q?pizza?=".to_vec()), "pizza");
}

#[test]
fn b_encoded_word_is_decoded() {
    // base64 of "hello"
    assert_eq!(decode_header(&b"=?utf-8?B?aGVsbG8=?=".to_vec()), "hello");
}

#[test]
fn q_encoded_soft_line_breaks_are_consumed() {
    assert_eq!(decode_header(&b"=?utf-8?q?a=\nbc?=".to_vec()), "abc");
    assert_eq!(decode_header(&b"=?utf-8?q?a=\r\nbc?=".to_vec()), "abc");
}

#[test]
fn unknown_encoding_designator_falls_back_to_the_raw_text() {
    let raw = b"=?utf-8?x?abc?=".to_vec();
    assert_eq!(decode_header(&raw), "=?utf-8?x?abc?=");
}

#[test]
fn truncated_q_content_falls_back_to_the_raw_text() {
    // the quoted-printable walk would run off the end at the trailing '='
    let raw = b"=?utf-8?q?abc=?=".to_vec();
    assert_eq!(decode_header(&raw), "=?utf-8?q?abc=?=");
}

#[test]
fn undecodable_word_falls_back_to_the_raw_text() {
    // well-shaped, but the charset label is unknown
    let raw = b"=?nosuchcharset?q?abc?=".to_vec();
    assert_eq!(decode_header(&raw), "=?nosuchcharset?q?abc?=");
}

#[test]
fn invalid_utf8_is_replaced() {
    assert_eq!(decode_header(&vec![0xff]), "\u{fffd}");
}

#[test]
fn subject_and_from_mirror_their_fields() {
    let e = env(Some(b"hi"), None, None);
    assert_eq!(get_subject(&e), Some("hi".to_string()));
    assert_eq!(get_from(&e), None);
    let e2 = env(None, Some(b"=?utf-8?q?Alice?="), None);
    assert_eq!(get_subject(&e2), None);
    assert_eq!(get_from(&e2), Some("Alice".to_string()));
}

#[test]
fn date_parses_to_epoch_seconds() {
    let e = env(None, None, Some(b"Thu, 1 Jan 1970 00:00:10 +0000"));
    assert_eq!(get_date(&e), Some(10));
    let e2 = env(None, None, Some(b"Thu, 1 Jan 1970 01:00:10 +0100"));
    assert_eq!(get_date(&e2), Some(10));
    let bad = env(None, None, Some(b"not a date"));
    assert_eq!(get_date(&bad), None);
    let missing = env(None, None, None);
    assert_eq!(get_date(&missing), None);
}

#[test]
fn candidate_needs_all_three_fields() {
    let date: &[u8] = b"Thu, 1 Jan 1970 00:00:10 +0000";
    let full = env(Some(b"pizza delivery"), Some(b"Alice"), Some(date));
    let m = extract_candidate(7, &full).expect("extractable");
    assert_eq!(m.uid, 7);
    assert_eq!(m.sender, "Alice");
    assert_eq!(m.subject, "pizza delivery");
    assert_eq!(m.date_ts, 10);
    assert!(extract_candidate(7, &env(None, Some(b"a"), Some(date))).is_none());
    assert!(extract_candidate(7, &env(Some(b"s"), None, Some(date))).is_none());
    assert!(extract_candidate(7, &env(Some(b"s"), Some(b"a"), None)).is_none());
    assert!(extract_candidate(7, &env(Some(b"s"), Some(b"a"), Some(b"junk"))).is_none());
}
