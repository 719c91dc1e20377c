//! Reading the engine's reply to one search.
//!
//! The engine returns a status code and, on a match, the byte offsets of the
//! whole match (the first pair of its offset vector). A negative code other than
//! [`NO_MATCH`] is an engine failure; a code of zero or more is a match.

use vstd::prelude::*;
use crate::diagnostic::{message_of, message_text};

verus! {

/// The engine's status code for "the subject holds no match".
pub const NO_MATCH: i32 = -1;

/// Byte offsets of the first match within the subject.
#[derive(Clone, Copy, Debug, PartialEq, Eq, Structural)]
pub struct MatchResult {
    pub start: usize,
    pub end: usize,
}

impl MatchResult {
    /// The span is ordered and lies inside a subject of `len` bytes.
    pub open spec fn within(self, len: nat) -> bool {
        self.start <= self.end && self.end <= len
    }
}

/// A search that the engine could not carry out, or whose offsets are unusable.
#[derive(Debug, PartialEq, Eq)]
pub enum ExecError {
    /// The engine returned an error code, with the formatter's message for it.
    Engine { code: i32, message: String },
    /// The engine reported a match whose offsets do not lie in the subject.
    BadOffsets { start: usize, end: usize },
}

/// `r` is what a search reply stands for: no match exactly on [`NO_MATCH`];
/// any other negative code an engine error carrying the formatter's message; a
/// code of zero or more a match, whose offsets must lie in the subject.
pub open spec fn reply_of(
    r: Result<Option<MatchResult>, ExecError>,
    rc: i32,
    start: usize,
    end: usize,
    subject_len: usize,
    diagnostic: Seq<u8>,
) -> bool {
    match r {
        Ok(None) => rc == NO_MATCH,
        Ok(Some(m)) => rc >= 0 && m.start == start && m.end == end && m.within(subject_len as nat),
        Err(ExecError::Engine { code, message }) => rc < 0 && rc != NO_MATCH && code == rc
            && message@ == message_of(diagnostic),
        Err(ExecError::BadOffsets { start: s, end: e }) => rc >= 0 && s == start && e == end && !(
        start <= end && end <= subject_len),
    }
}

/// Interprets the engine's reply to a search of a subject of `subject_len`
/// bytes: status `rc`, whole-match offsets `start` and `end`, and the
/// formatter's buffer for `rc`.
pub fn read_reply(rc: i32, start: usize, end: usize, subject_len: usize, diagnostic: &[u8]) -> (r:
    Result<Option<MatchResult>, ExecError>)
    ensures
        reply_of(r, rc, start, end, subject_len, diagnostic@),
{
    if rc == NO_MATCH {
        Ok(None)
    } else if rc < 0 {
        Err(ExecError::Engine { code: rc, message: message_text(diagnostic) })
    } else if start <= end && end <= subject_len {
        Ok(Some(MatchResult { start, end }))
    } else {
        Err(ExecError::BadOffsets { start, end })
    }
}

/// The engine's "no match" reply is read as no match, never as an error.
pub proof fn lemma_no_match_is_not_error(
    r: Result<Option<MatchResult>, ExecError>,
    start: usize,
    end: usize,
    subject_len: usize,
    diagnostic: Seq<u8>,
)
    requires
        reply_of(r, NO_MATCH, start, end, subject_len, diagnostic),
    ensures
        r == Ok::<Option<MatchResult>, ExecError>(None),
{
}

/// A reply read as a match has offsets `0 <= start <= end <= subject_len`,
/// taken unchanged from the engine.
pub proof fn lemma_match_within_subject(
    r: Result<Option<MatchResult>, ExecError>,
    rc: i32,
    start: usize,
    end: usize,
    subject_len: usize,
    diagnostic: Seq<u8>,
)
    requires
        reply_of(r, rc, start, end, subject_len, diagnostic),
        r matches Ok(Some(_)),
    ensures
        0 <= start <= end <= subject_len,
        r == Ok::<Option<MatchResult>, ExecError>(Some(MatchResult { start, end })),
{
}

} // verus!
