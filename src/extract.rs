//! Taking the matched bytes out of the subject and reading them as text.

use vstd::prelude::*;
use vstd::utf8::{decode_utf8, encode_utf8, is_continuation_byte, valid_utf8, decode_utf8_encode_utf8};
use crate::search::MatchResult;
use crate::text::utf8_text;

verus! {

/// The matched span cannot be read as text: an offset falls inside a
/// multi-byte character, or the matched bytes are not well-formed UTF-8.
#[derive(Clone, Copy, Debug, PartialEq, Eq, Structural)]
pub struct DecodeError {
    pub start: usize,
    pub end: usize,
}

/// The subject's bytes covered by `m`.
pub open spec fn span_of(subject: Seq<u8>, m: MatchResult) -> Seq<u8> {
    subject.subrange(m.start as int, m.end as int)
}

/// Offset `i` starts a character of `subject` or ends the subject: it is the
/// subject's length, or the byte there is not a UTF-8 continuation byte.
pub open spec fn char_boundary(subject: Seq<u8>, i: int) -> bool {
    i == subject.len() || (0 <= i < subject.len() && !is_continuation_byte(subject[i]))
}

/// Whether offset `i` is a character boundary of `subject`.
pub fn at_char_boundary(subject: &[u8], i: usize) -> (r: bool)
    requires
        i <= subject@.len(),
    ensures
        r == char_boundary(subject@, i as int),
{
    i == subject.len() || subject[i] < 0x80 || subject[i] > 0xbf
}

/// The span's two offsets are character boundaries and its bytes are
/// well-formed UTF-8: exactly then the match can be read as text.
pub open spec fn readable_span(subject: Seq<u8>, m: MatchResult) -> bool {
    char_boundary(subject, m.start as int) && char_boundary(subject, m.end as int) && valid_utf8(
        span_of(subject, m),
    )
}

/// Copies the subject's bytes from `m.start` up to `m.end`.
pub fn matched_bytes(subject: &[u8], m: MatchResult) -> (r: Vec<u8>)
    requires
        m.within(subject@.len()),
    ensures
        r@ == span_of(subject@, m),
{
    let mut out: Vec<u8> = Vec::new();
    let mut i: usize = m.start;
    while i < m.end
        invariant
            m.start <= i <= m.end <= subject@.len(),
            out@ == subject@.subrange(m.start as int, i as int),
        decreases m.end - i,
    {
        out.push(subject[i]);
        i = i + 1;
        assert(out@ =~= subject@.subrange(m.start as int, i as int));
    }
    out
}

/// The matched substring as text; fails when an offset falls inside a
/// multi-byte character or the matched bytes are not well-formed UTF-8.
pub fn matched_text(subject: &[u8], m: MatchResult) -> (r: Result<String, DecodeError>)
    requires
        m.within(subject@.len()),
    ensures
        r.is_ok() == readable_span(subject@, m),
        r.is_ok() ==> r.unwrap()@ == decode_utf8(span_of(subject@, m)),
        r.is_err() ==> r == Err::<String, DecodeError>(DecodeError { start: m.start, end: m.end }),
{
    if !at_char_boundary(subject, m.start) || !at_char_boundary(subject, m.end) {
        return Err(DecodeError { start: m.start, end: m.end });
    }
    match utf8_text(matched_bytes(subject, m)) {
        Some(s) => Ok(s),
        None => Err(DecodeError { start: m.start, end: m.end }),
    }
}

/// Text read from the matched bytes encodes back to exactly those bytes: what
/// is reported is the subject's slice, with nothing transformed, cut or added.
pub proof fn lemma_report_round_trip(subject: Seq<u8>, m: MatchResult)
    requires
        m.within(subject.len()),
        valid_utf8(span_of(subject, m)),
    ensures
        encode_utf8(decode_utf8(span_of(subject, m))) == span_of(subject, m),
{
    decode_utf8_encode_utf8(span_of(subject, m));
}

} // verus!
