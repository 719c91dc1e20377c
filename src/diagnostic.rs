//! Messages written by the engine's diagnostic formatter.
//!
//! The formatter fills a fixed, zero-initialised buffer; the message is what
//! stands before the trailing NUL bytes, read as UTF-8.

use vstd::prelude::*;
use vstd::utf8::{decode_utf8, valid_utf8};
use crate::text::utf8_text;

verus! {

/// `b` without its trailing zero bytes.
pub open spec fn strip_nul(b: Seq<u8>) -> Seq<u8>
    decreases b.len(),
{
    if b.len() > 0 && b.last() == 0 {
        strip_nul(b.drop_last())
    } else {
        b
    }
}

/// The message kept when the buffer does not hold well-formed text.
pub open spec fn unreadable_message() -> Seq<char> {
    "Failed to convert error message to UTF-8"@
}

/// The message that a formatter buffer holds.
pub open spec fn message_of(buf: Seq<u8>) -> Seq<char> {
    let t = strip_nul(buf);
    if valid_utf8(t) {
        decode_utf8(t)
    } else {
        unreadable_message()
    }
}

proof fn lemma_strip_nul_prefix(b: Seq<u8>, k: int)
    requires
        0 < k <= b.len(),
        b[k - 1] == 0,
    ensures
        strip_nul(b.subrange(0, k)) == strip_nul(b.subrange(0, k - 1)),
{
    assert(b.subrange(0, k).drop_last() =~= b.subrange(0, k - 1));
}

/// Turns a formatter buffer into its message: the text before the trailing NUL
/// bytes, or a fixed notice where those bytes are not well-formed UTF-8.
pub fn message_text(buf: &[u8]) -> (r: String)
    ensures
        r@ == message_of(buf@),
{
    let mut k: usize = buf.len();
    assert(buf@.subrange(0, k as int) =~= buf@);
    while k > 0 && buf[k - 1] == 0
        invariant
            k <= buf@.len(),
            strip_nul(buf@) == strip_nul(buf@.subrange(0, k as int)),
        decreases k,
    {
        proof {
            lemma_strip_nul_prefix(buf@, k as int);
        }
        k = k - 1;
    }
    let mut kept: Vec<u8> = Vec::new();
    let mut i: usize = 0;
    while i < k
        invariant
            i <= k <= buf@.len(),
            kept@ == buf@.subrange(0, i as int),
        decreases k - i,
    {
        kept.push(buf[i]);
        i = i + 1;
        assert(kept@ =~= buf@.subrange(0, i as int));
    }
    assert(strip_nul(kept@) == kept@);
    match utf8_text(kept) {
        Some(s) => s,
        None => {
            proof {
                reveal_strlit("Failed to convert error message to UTF-8");
            }
            "Failed to convert error message to UTF-8".to_owned()
        }
    }
}

} // verus!
