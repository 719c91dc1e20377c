//! The order of one run: compile the pattern, search the subject once, release
//! the compiled pattern, report the matched text.
//!
//! The caller performs each [`Action`] (engine calls, the datagram send) and
//! hands what happened back as an [`Event`]; [`Pipeline::step`] decides what
//! comes next. Every failure ends the run, and a compiled pattern is released
//! exactly once before the run ends.

use vstd::prelude::*;
use vstd::utf8::{decode_utf8, encode_utf8};
use crate::diagnostic::{message_of, message_text};
use crate::extract::{lemma_report_round_trip, matched_text, readable_span, span_of, DecodeError};
use crate::search::{read_reply, reply_of, ExecError, MatchResult};

verus! {

/// The engine refused the pattern.
#[derive(Debug, PartialEq, Eq)]
pub struct CompileError {
    pub code: i32,
    pub message: String,
}

/// What the caller observed after performing the last action.
#[derive(Debug)]
pub enum Event {
    /// The pattern compiled; the caller now holds the compiled pattern.
    Compiled,
    /// The engine refused the pattern with `code`; `diagnostic` is the
    /// formatter's buffer for it.
    CompileFailed { code: i32, diagnostic: Vec<u8> },
    /// The engine's reply to the search (see [`read_reply`]).
    Searched { rc: i32, start: usize, end: usize, diagnostic: Vec<u8> },
    /// The compiled pattern was released.
    Released,
    /// The matched text was sent.
    Sent,
    /// The transport could not be set up or the send failed.
    SendFailed { reason: String },
}

/// How a run ended.
#[derive(Debug)]
pub enum Outcome {
    Reported { span: MatchResult },
    NoMatch,
    Compile(CompileError),
    Exec(ExecError),
    Decode(DecodeError),
    Transport { reason: String },
}

/// The kind of an [`Outcome`], kept once the run is over.
#[derive(Clone, Copy, Debug, PartialEq, Eq, Structural)]
pub enum Ending {
    Reported,
    NoMatch,
    CompileFailed,
    ExecFailed,
    DecodeFailed,
    TransportFailed,
}

/// What the caller is to do next.
#[derive(Debug)]
pub enum Action {
    /// Compile the pattern.
    Compile,
    /// Search the subject with the compiled pattern.
    Search,
    /// Release the compiled pattern.
    Release,
    /// Send `text` as one datagram.
    Report { text: String },
    /// The run is over.
    Stop { outcome: Outcome },
    /// The event did not fit the stage and was ignored.
    Idle,
}

/// Where a run stands.
#[derive(Debug)]
pub enum Stage {
    Compiling,
    Searching,
    Releasing { reply: Result<Option<MatchResult>, ExecError> },
    Reporting { span: MatchResult },
    Finished { ending: Ending },
}

/// One run over one subject. `compiled` records whether the pattern was ever
/// compiled and `releases` how many releases were asked for.
pub struct Pipeline {
    subject: Vec<u8>,
    stage: Stage,
    compiled: Ghost<bool>,
    releases: Ghost<nat>,
}

impl Pipeline {
    /// The run's stage.
    pub closed spec fn current(self) -> Stage {
        self.stage
    }

    /// The subject being searched.
    pub closed spec fn bytes(self) -> Seq<u8> {
        self.subject@
    }

    /// Whether the pattern was ever compiled in this run.
    pub closed spec fn was_compiled(self) -> bool {
        self.compiled@
    }

    /// How many releases this run has asked for.
    pub closed spec fn release_count(self) -> nat {
        self.releases@
    }

    /// The run's stage.
    pub fn stage(&self) -> (r: &Stage)
        ensures
            *r == self.current(),
    {
        &self.stage
    }

    /// The caller holds a compiled pattern.
    pub open spec fn holds_pattern(self) -> bool {
        self.current() is Searching || self.current() is Releasing
    }

    pub open spec fn wf(self) -> bool {
        match self.current() {
            Stage::Compiling => !self.was_compiled() && self.release_count() == 0,
            Stage::Searching => self.was_compiled() && self.release_count() == 0,
            Stage::Releasing { reply } => self.was_compiled() && self.release_count() == 1 && (
            reply is Ok && reply->Ok_0 is Some ==> reply->Ok_0->Some_0.within(
                self.bytes().len(),
            )),
            Stage::Reporting { span } => self.was_compiled() && self.release_count() == 1 && span.within(
                self.bytes().len(),
            ),
            Stage::Finished { .. } => self.release_count() == (if self.was_compiled() {
                1nat
            } else {
                0nat
            }),
        }
    }

    /// `p` and `a` follow from this pipeline receiving `event`.
    pub open spec fn leads_to(self, event: Event, p: Pipeline, a: Action) -> bool {
        let len = self.bytes().len();
        match (self.current(), event) {
            (Stage::Compiling, Event::Compiled) => p.current() is Searching && a is Search,
            (Stage::Compiling, Event::CompileFailed { code, diagnostic }) => p.current() == (
            Stage::Finished { ending: Ending::CompileFailed }) && match a {
                Action::Stop { outcome: Outcome::Compile(e) } => e.code == code && e.message@
                    == message_of(diagnostic@),
                _ => false,
            },
            (Stage::Searching, Event::Searched { rc, start, end, diagnostic }) => a is Release
                && match p.current() {
                Stage::Releasing { reply } => reply_of(
                    reply,
                    rc,
                    start,
                    end,
                    len as usize,
                    diagnostic@,
                ),
                _ => false,
            },
            (Stage::Releasing { reply }, Event::Released) => match reply {
                Ok(None) => p.current() == (Stage::Finished { ending: Ending::NoMatch }) && a == (
                Action::Stop { outcome: Outcome::NoMatch }),
                Err(e) => p.current() == (Stage::Finished { ending: Ending::ExecFailed }) && a == (
                Action::Stop { outcome: Outcome::Exec(e) }),
                Ok(Some(m)) => if readable_span(self.bytes(), m) {
                    p.current() == (Stage::Reporting { span: m }) && match a {
                        Action::Report { text } => text@ == decode_utf8(span_of(self.bytes(), m)),
                        _ => false,
                    }
                } else {
                    p.current() == (Stage::Finished { ending: Ending::DecodeFailed }) && a == (
                    Action::Stop {
                        outcome: Outcome::Decode(DecodeError { start: m.start, end: m.end }),
                    })
                },
            },
            (Stage::Reporting { span }, Event::Sent) => p.current() == (Stage::Finished {
                ending: Ending::Reported,
            }) && a == (Action::Stop { outcome: Outcome::Reported { span } }),
            (Stage::Reporting { .. }, Event::SendFailed { reason }) => p.current() == (
            Stage::Finished { ending: Ending::TransportFailed }) && a == (Action::Stop {
                outcome: Outcome::Transport { reason },
            }),
            _ => p.current() == self.current() && a is Idle,
        }
    }

    /// Starts a run over `subject`; the first thing to do is to compile.
    pub fn new(subject: Vec<u8>) -> (r: (Pipeline, Action))
        ensures
            r.0.wf(),
            r.0.bytes() == subject@,
            r.0.current() is Compiling,
            r.1 is Compile,
    {
        (
            Pipeline {
                subject,
                stage: Stage::Compiling,
                compiled: Ghost(false),
                releases: Ghost(0),
            },
            Action::Compile,
        )
    }

    /// Takes the caller's observation of the last action and says what to do
    /// next. A search and a release are asked for only while a compiled
    /// pattern is held, and a release only once.
    pub fn step(self, event: Event) -> (r: (Pipeline, Action))
        requires
            self.wf(),
        ensures
            r.0.wf(),
            r.0.bytes() == self.bytes(),
            self.leads_to(event, r.0, r.1),
            r.0.was_compiled() == (self.was_compiled() || (self.current() is Compiling && event is Compiled)),
            r.0.release_count() == self.release_count() + (if r.1 is Release {
                1nat
            } else {
                0nat
            }),
            r.1 is Release ==> self.holds_pattern() && r.0.release_count() == 1,
            r.1 is Search ==> r.0.holds_pattern(),
    {
        let Pipeline { subject, stage, compiled, releases } = self;
        match (stage, event) {
            (Stage::Compiling, Event::Compiled) => (
                Pipeline { subject, stage: Stage::Searching, compiled: Ghost(true), releases },
                Action::Search,
            ),
            (Stage::Compiling, Event::CompileFailed { code, diagnostic }) => {
                let message = message_text(&diagnostic);
                (
                    Pipeline {
                        subject,
                        stage: Stage::Finished { ending: Ending::CompileFailed },
                        compiled,
                        releases,
                    },
                    Action::Stop { outcome: Outcome::Compile(CompileError { code, message }) },
                )
            },
            (Stage::Searching, Event::Searched { rc, start, end, diagnostic }) => {
                let reply = read_reply(rc, start, end, subject.len(), &diagnostic);
                (
                    Pipeline {
                        subject,
                        stage: Stage::Releasing { reply },
                        compiled,
                        releases: Ghost(releases@ + 1),
                    },
                    Action::Release,
                )
            },
            (Stage::Releasing { reply }, Event::Released) => {
                match reply {
                    Ok(None) => (
                        Pipeline {
                            subject,
                            stage: Stage::Finished { ending: Ending::NoMatch },
                            compiled,
                            releases,
                        },
                        Action::Stop { outcome: Outcome::NoMatch },
                    ),
                    Err(e) => (
                        Pipeline {
                            subject,
                            stage: Stage::Finished { ending: Ending::ExecFailed },
                            compiled,
                            releases,
                        },
                        Action::Stop { outcome: Outcome::Exec(e) },
                    ),
                    Ok(Some(m)) => {
                        match matched_text(subject.as_slice(), m) {
                            Ok(text) => (
                                Pipeline {
                                    subject,
                                    stage: Stage::Reporting { span: m },
                                    compiled,
                                    releases,
                                },
                                Action::Report { text },
                            ),
                            Err(d) => (
                                Pipeline {
                                    subject,
                                    stage: Stage::Finished { ending: Ending::DecodeFailed },
                                    compiled,
                                    releases,
                                },
                                Action::Stop { outcome: Outcome::Decode(d) },
                            ),
                        }
                    },
                }
            },
            (Stage::Reporting { span }, Event::Sent) => (
                Pipeline {
                    subject,
                    stage: Stage::Finished { ending: Ending::Reported },
                    compiled,
                    releases,
                },
                Action::Stop { outcome: Outcome::Reported { span } },
            ),
            (Stage::Reporting { .. }, Event::SendFailed { reason }) => (
                Pipeline {
                    subject,
                    stage: Stage::Finished { ending: Ending::TransportFailed },
                    compiled,
                    releases,
                },
                Action::Stop { outcome: Outcome::Transport { reason } },
            ),
            (stage, _) => (Pipeline { subject, stage, compiled, releases }, Action::Idle),
        }
    }
}

/// A finished run has asked for exactly one release when the pattern was
/// compiled, and for none when it was not.
pub proof fn lemma_finished_released_once(p: Pipeline)
    requires
        p.wf(),
        p.current() is Finished,
    ensures
        p.release_count() == (if p.was_compiled() {
            1nat
        } else {
            0nat
        }),
{
}

/// The text handed to the reporter encodes to exactly the subject's bytes
/// between the offsets of the match: no transformation, truncation or
/// re-encoding.
pub proof fn lemma_reported_bytes_are_match(p: Pipeline, event: Event, q: Pipeline, a: Action)
    requires
        p.wf(),
        p.leads_to(event, q, a),
        a is Report,
    ensures
        q.current() is Reporting,
        q.current()->span.within(p.bytes().len()),
        encode_utf8(a->text@) == span_of(p.bytes(), q.current()->span),
{
    let m = q.current()->span;
    lemma_report_round_trip(p.bytes(), m);
}

} // verus!
