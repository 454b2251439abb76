//! What a handler hands back: the reply, and what has to happen before it
//! is sent.

use vstd::prelude::*;

verus! {

/// Status of a reply that carries out the request.
pub const OK: u16 = 200;

/// Status of a reply to a path whose parameter is not an unsigned integer.
pub const BAD_REQUEST: u16 = 400;

/// Status of a reply to a path that matches no route.
pub const NOT_FOUND: u16 = 404;

/// Status of a reply to a known path asked for with a method other than GET.
pub const METHOD_NOT_ALLOWED: u16 = 405;

/// Status of an injected failure and of a refused delay.
pub const INTERNAL_SERVER_ERROR: u16 = 500;

/// Longest delay, in milliseconds, that the latency route grants.
pub const MAX_LATENCY_MS: u64 = 1000;

/// Body of every reply that has nothing to say.
pub const EMPTY_BODY: &'static str = "";

/// Body of the reply that refuses a delay above [`MAX_LATENCY_MS`].
pub const LATENCY_REFUSED_BODY: &'static str = "Error Latency > 1000ms";

/// An HTTP reply: the status code and the body text.
#[derive(Clone, Copy, Debug, PartialEq, Eq)]
pub struct Reply {
    pub status: u16,
    pub body: &'static str,
}

/// Severity of a log line.
#[derive(Clone, Copy, Debug, PartialEq, Eq)]
pub enum Level {
    Info,
    Error,
}

/// The parametric route that a log line is about.
#[derive(Clone, Copy, Debug, PartialEq, Eq)]
pub enum Kind {
    Percent,
    Latency,
}

/// How the request that a log line is about ended.
#[derive(Clone, Copy, Debug, PartialEq, Eq)]
pub enum Outcome {
    Success,
    Failure,
}

/// One structured log line: which route was asked, with which parameter,
/// and how it ended.
#[derive(Clone, Copy, Debug, PartialEq, Eq)]
pub struct LogLine {
    pub level: Level,
    pub kind: Kind,
    pub value: u64,
    pub outcome: Outcome,
}

/// The answer to one request, as three steps to carry out in order: emit
/// `log` if there is one, wait `delay_ms` milliseconds, send `reply`.
#[derive(Clone, Copy, Debug, PartialEq, Eq)]
pub struct Plan {
    pub log: Option<LogLine>,
    pub delay_ms: u64,
    pub reply: Reply,
}

/// The reply with status `status` and no body.
pub open spec fn bare_reply(status: u16) -> Reply {
    Reply { status, body: EMPTY_BODY }
}

/// The plan of the failure-injection route for `percent`, once it is
/// settled whether this request fails: status 500 if it does and 200 if it
/// does not, in both cases at once, with an empty body and an info line.
pub open spec fn percent_plan(percent: u32, failed: bool) -> Plan {
    Plan {
        log: Some(
            LogLine {
                level: Level::Info,
                kind: Kind::Percent,
                value: percent as u64,
                outcome: if failed { Outcome::Failure } else { Outcome::Success },
            },
        ),
        delay_ms: 0,
        reply: bare_reply(if failed { INTERNAL_SERVER_ERROR } else { OK }),
    }
}

/// The plan of the latency route for `ms`: up to the cap, wait `ms`
/// milliseconds and reply 200; above it, reply 500 with the diagnostic
/// body at once and log at error severity.
pub open spec fn latency_plan(ms: u64) -> Plan {
    if ms > MAX_LATENCY_MS {
        Plan {
            log: Some(
                LogLine {
                    level: Level::Error,
                    kind: Kind::Latency,
                    value: ms,
                    outcome: Outcome::Failure,
                },
            ),
            delay_ms: 0,
            reply: Reply { status: INTERNAL_SERVER_ERROR, body: LATENCY_REFUSED_BODY },
        }
    } else {
        Plan {
            log: Some(
                LogLine {
                    level: Level::Info,
                    kind: Kind::Latency,
                    value: ms,
                    outcome: Outcome::Success,
                },
            ),
            delay_ms: ms,
            reply: bare_reply(OK),
        }
    }
}

/// A plan that only replies: no log line, no delay, status `status`, empty
/// body.
pub open spec fn bare_plan(status: u16) -> Plan {
    Plan { log: None, delay_ms: 0, reply: bare_reply(status) }
}

} // verus!
