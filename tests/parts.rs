use match_report::diagnostic::message_text;
use match_report::extract::{at_char_boundary, matched_bytes, matched_text, DecodeError};
use match_report::search::{read_reply, ExecError, MatchResult, NO_MATCH};

fn span(start: usize, end: usize) -> MatchResult {
    MatchResult { start, end }
}

#[test]
fn message_drops_trailing_nuls() {
    let mut buf = [0u8; 128];
    buf[..7].copy_from_slice(b"missing");
    assert_eq!(message_text(&buf), "missing");
}

#[test]
fn message_keeps_inner_text_whole() {
    assert_eq!(message_text(b"a\0b\0\0"), "a\0b");
}

#[test]
fn message_of_empty_buffer_is_empty() {
    assert_eq!(message_text(&[0u8; 16]), "");
    assert_eq!(message_text(&[]), "");
}

#[test]
fn message_of_malformed_buffer_is_notice() {
    assert_eq!(
        message_text(&[0xff, 0x41, 0, 0]),
        "Failed to convert error message to UTF-8"
    );
}

#[test]
fn no_match_code_is_none() {
    assert_eq!(read_reply(NO_MATCH, 0, 0, 3, b"no match\0"), Ok(None));
}

#[test]
fn positive_code_is_match() {
    assert_eq!(read_reply(1, 43, 46, 97, b""), Ok(Some(span(43, 46))));
}

#[test]
fn zero_code_is_match() {
    assert_eq!(read_reply(0, 2, 2, 2, b""), Ok(Some(span(2, 2))));
}

#[test]
fn negative_code_is_engine_error() {
    let r = read_reply(-47, 0, 0, 10, b"match limit exceeded\0\0\0");
    assert_eq!(
        r,
        Err(ExecError::Engine { code: -47, message: "match limit exceeded".to_string() })
    );
}

#[test]
fn reversed_offsets_are_refused() {
    assert_eq!(read_reply(1, 5, 3, 10, b""), Err(ExecError::BadOffsets { start: 5, end: 3 }));
}

#[test]
fn offsets_past_subject_are_refused() {
    assert_eq!(read_reply(1, 3, 11, 10, b""), Err(ExecError::BadOffsets { start: 3, end: 11 }));
}

#[test]
fn matched_bytes_are_the_slice() {
    let subject = b"hello world";
    assert_eq!(matched_bytes(subject, span(6, 11)), b"world".to_vec());
    assert_eq!(matched_bytes(subject, span(4, 4)), Vec::<u8>::new());
}

#[test]
fn matched_text_on_char_boundaries() {
    let subject = "aé日b".as_bytes();
    assert_eq!(matched_text(subject, span(1, 6)), Ok("é日".to_string()));
    assert_eq!(matched_text(subject, span(0, 0)), Ok(String::new()));
}

#[test]
fn matched_text_inside_a_character_fails() {
    let subject = "aé".as_bytes();
    assert_eq!(matched_text(subject, span(0, 2)), Err(DecodeError { start: 0, end: 2 }));
    assert_eq!(matched_text(subject, span(2, 3)), Err(DecodeError { start: 2, end: 3 }));
}

#[test]
fn empty_span_inside_a_character_fails() {
    let subject = "é".as_bytes();
    assert_eq!(matched_text(subject, span(1, 1)), Err(DecodeError { start: 1, end: 1 }));
    assert_eq!(matched_text(subject, span(0, 0)), Ok(String::new()));
    assert_eq!(matched_text(subject, span(2, 2)), Ok(String::new()));
}

#[test]
fn span_ending_inside_a_character_fails() {
    let subject = "ab日c".as_bytes();
    assert_eq!(matched_text(subject, span(0, 3)), Err(DecodeError { start: 0, end: 3 }));
    assert_eq!(matched_text(subject, span(0, 5)), Ok("ab日".to_string()));
}

#[test]
fn char_boundaries_of_subject() {
    let subject = "aé".as_bytes();
    assert!(at_char_boundary(subject, 0));
    assert!(at_char_boundary(subject, 1));
    assert!(!at_char_boundary(subject, 2));
    assert!(at_char_boundary(subject, 3));
}
