//! The handlers behind the routes.

use crate::chance::{clamp_percent, draw_ratio, HUNDRED};
use crate::plan::{
    bare_plan, bare_reply, latency_plan, percent_plan, Kind, Level, LogLine, Outcome, Plan, Reply,
    BAD_REQUEST, EMPTY_BODY, INTERNAL_SERVER_ERROR, LATENCY_REFUSED_BODY, MAX_LATENCY_MS,
    METHOD_NOT_ALLOWED, NOT_FOUND, OK,
};
use crate::route::{route, route_of, Route};
use vstd::prelude::*;

verus! {

/// Whether a request to the failure-injection route for `percent` can fail
/// at all.
pub open spec fn may_fail(percent: u32) -> bool {
    percent > 0
}

/// Whether a request to the failure-injection route for `percent` can
/// succeed at all.
pub open spec fn may_succeed(percent: u32) -> bool {
    percent < HUNDRED
}

/// `plan` is one that the failure-injection route can give for `percent`:
/// the failing plan unless `percent` is zero, the succeeding plan unless
/// `percent` is a hundred or more.
pub open spec fn percent_answer(percent: u32, plan: Plan) -> bool {
    ||| may_fail(percent) && plan == percent_plan(percent, true)
    ||| may_succeed(percent) && plan == percent_plan(percent, false)
}

/// `plan` is one that a request leading to `route` can be answered with.
/// But for the failure-injection route, whose answer is up to chance, the
/// route settles the plan.
pub open spec fn answers(route: Route, plan: Plan) -> bool {
    match route {
        Route::Percent(percent) => percent_answer(percent, plan),
        Route::Latency(ms) => plan == latency_plan(ms),
        Route::Health => plan == bare_plan(OK),
        Route::BadParameter => plan == bare_plan(BAD_REQUEST),
        Route::NotFound => plan == bare_plan(NOT_FOUND),
        Route::MethodNotAllowed => plan == bare_plan(METHOD_NOT_ALLOWED),
    }
}

/// Whether a request to the failure-injection route for `percent` fails,
/// given how the draw for it came out. The draw decides only where the
/// percentage leaves anything open: zero never fails and a hundred or more
/// always fails, whatever was drawn.
pub open spec fn settled(percent: u32, drawn: bool) -> bool {
    percent >= HUNDRED || (percent > 0 && drawn)
}

/// The plan for a request to the failure-injection route, given how the
/// draw for it came out: `drawn` says whether the draw hit.
///
/// The edge values are settled here and not left to the source of the
/// draw, so they hold of every source.
pub fn percent_verdict(percent: u32, drawn: bool) -> (plan: Plan)
    ensures
        plan == percent_plan(percent, settled(percent, drawn)),
        percent_answer(percent, plan),
{
    let failed = percent >= HUNDRED || (percent > 0 && drawn);
    let outcome = if failed { Outcome::Failure } else { Outcome::Success };
    let status: u16 = if failed { INTERNAL_SERVER_ERROR } else { OK };
    Plan {
        log: Some(
            LogLine { level: Level::Info, kind: Kind::Percent, value: percent as u64, outcome },
        ),
        delay_ms: 0,
        reply: Reply { status, body: EMPTY_BODY },
    }
}

/// Answers a request to the failure-injection route: one draw with a
/// chance of `percent` in a hundred, and of a hundred in a hundred for
/// every `percent` above, decides whether the reply is 500 or 200.
///
/// Zero never fails; a hundred and everything above always fails. For the
/// values in between either plan can come back.
pub fn percent_handler(percent: u32) -> (plan: Plan)
    ensures
        percent_answer(percent, plan),
        percent == 0 ==> plan == percent_plan(percent, false) && plan.reply == bare_reply(OK),
        percent >= HUNDRED ==> plan == percent_plan(percent, true) && plan.reply == bare_reply(
            INTERNAL_SERVER_ERROR,
        ),
{
    let drawn = draw_ratio(clamp_percent(percent), HUNDRED);
    percent_verdict(percent, drawn)
}

/// Answers a request to the latency route: a delay of `ms` milliseconds
/// before a 200 where `ms` is within the cap, an immediate 500 with the
/// diagnostic body where it is not.
pub fn latency_handler(ms: u64) -> (plan: Plan)
    ensures
        plan == latency_plan(ms),
        ms <= MAX_LATENCY_MS ==> plan.delay_ms == ms && plan.reply == bare_reply(OK),
        ms > MAX_LATENCY_MS ==> plan.delay_ms == 0 && plan.reply == (Reply {
            status: INTERNAL_SERVER_ERROR,
            body: LATENCY_REFUSED_BODY,
        }),
        plan.delay_ms <= MAX_LATENCY_MS,
{
    if ms > MAX_LATENCY_MS {
        Plan {
            log: Some(
                LogLine {
                    level: Level::Error,
                    kind: Kind::Latency,
                    value: ms,
                    outcome: Outcome::Failure,
                },
            ),
            delay_ms: 0,
            reply: Reply { status: INTERNAL_SERVER_ERROR, body: LATENCY_REFUSED_BODY },
        }
    } else {
        Plan {
            log: Some(
                LogLine {
                    level: Level::Info,
                    kind: Kind::Latency,
                    value: ms,
                    outcome: Outcome::Success,
                },
            ),
            delay_ms: ms,
            reply: Reply { status: OK, body: EMPTY_BODY },
        }
    }
}

/// Answers a request to one of the three health routes: 200, empty body,
/// nothing logged, no delay.
pub fn health_handler() -> (plan: Plan)
    ensures
        plan == bare_plan(OK),
{
    only_reply(OK)
}

/// A plan that replies with `status` and an empty body, at once and
/// without a log line.
fn only_reply(status: u16) -> (plan: Plan)
    ensures
        plan == bare_plan(status),
{
    Plan { log: None, delay_ms: 0, reply: Reply { status, body: EMPTY_BODY } }
}

/// Answers a request that leads to `route`.
pub fn dispatch(route: Route) -> (plan: Plan)
    ensures
        answers(route, plan),
        plan.delay_ms <= MAX_LATENCY_MS,
{
    match route {
        Route::Percent(percent) => percent_handler(percent),
        Route::Latency(ms) => latency_handler(ms),
        Route::Health => health_handler(),
        Route::BadParameter => only_reply(BAD_REQUEST),
        Route::NotFound => only_reply(NOT_FOUND),
        Route::MethodNotAllowed => only_reply(METHOD_NOT_ALLOWED),
    }
}

/// Answers a request from its method and its path, both as the bytes that
/// stood on the request line (the path without a query).
///
/// No answer waits longer than the cap of the latency route.
pub fn respond(method: &[u8], path: &[u8]) -> (plan: Plan)
    ensures
        answers(route_of(method@, path@), plan),
        plan.delay_ms <= MAX_LATENCY_MS,
{
    dispatch(route(method, path))
}

} // verus!
