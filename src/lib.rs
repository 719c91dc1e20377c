//! Match-and-report pipeline around a PCRE-compatible regular-expression engine.
//!
//! The engine itself (compilation, matching) and the datagram transport are driven
//! by the caller; this library holds the decisions between those steps: how an
//! engine reply is read, how the matched bytes are taken from the subject and
//! checked as text, how an engine diagnostic becomes a message, and the order in
//! which the compiled pattern is searched, released and the result reported.

mod text;
pub mod diagnostic;
pub mod search;
pub mod extract;
pub mod pipeline;

