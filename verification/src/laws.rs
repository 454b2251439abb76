//! What holds of every request, stated over the route table and over the
//! plans that answer a route.

use crate::chance::HUNDRED;
use crate::decimal::{
    decimal_text, is_digit, lemma_decimal_text_reads_back, unsigned_digits, unsigned_of,
};
use crate::handlers::answers;
use crate::plan::{
    bare_plan, bare_reply, Plan, Reply, BAD_REQUEST, INTERNAL_SERVER_ERROR, LATENCY_REFUSED_BODY,
    MAX_LATENCY_MS, METHOD_NOT_ALLOWED, NOT_FOUND, OK,
};
use crate::route::{
    fits_template, get_method, is_health_path, is_segment, latency_prefix, path_route,
    percent_prefix, route_of, starts_with, Route, MAX_MILLISECONDS, MAX_PERCENT, SLASH,
};
use vstd::prelude::*;
use vstd::string::*;

verus! {

/// The bytes of the texts that the route table is written with.
pub proof fn lemma_route_texts()
    ensures
        percent_prefix() =~= seq![47u8],
        latency_prefix() =~= seq![47u8, 108, 97, 116, 101, 110, 99, 121, 47],
        "/healthz".spec_bytes() =~= seq![47u8, 104, 101, 97, 108, 116, 104, 122],
        "/livez".spec_bytes() =~= seq![47u8, 108, 105, 118, 101, 122],
        "/readyz".spec_bytes() =~= seq![47u8, 114, 101, 97, 100, 121, 122],
{
    reveal_strlit("/");
    reveal_strlit("/latency/");
    reveal_strlit("/healthz");
    reveal_strlit("/livez");
    reveal_strlit("/readyz");
    is_ascii_spec_bytes("/");
    is_ascii_spec_bytes("/latency/");
    is_ascii_spec_bytes("/healthz");
    is_ascii_spec_bytes("/livez");
    is_ascii_spec_bytes("/readyz");
}

/// A path made of `/latency/` and one segment leads to the latency route
/// with the number that the segment writes, and to a bad parameter where it
/// writes none that fits.
pub proof fn lemma_latency_template(segment: Seq<u8>)
    requires
        is_segment(segment),
    ensures
        path_route(latency_prefix() + segment) == (match unsigned_of(segment, MAX_MILLISECONDS) {
            Some(ms) => Route::Latency(ms),
            None => Route::BadParameter,
        }),
{
    lemma_route_texts();
    let path = latency_prefix() + segment;
    assert(path.len() >= 10);
    assert(!is_health_path(path));
    assert(path.take(latency_prefix().len() as int) =~= latency_prefix());
    assert(path.skip(latency_prefix().len() as int) =~= segment);
}

/// A path made of `/` and one segment that writes a percentage leads to the
/// failure-injection route with that percentage.
pub proof fn lemma_percent_template(segment: Seq<u8>, percent: u32)
    requires
        is_segment(segment),
        unsigned_of(segment, MAX_PERCENT) == Some(percent as u64),
    ensures
        path_route(percent_prefix() + segment) == Route::Percent(percent),
{
    lemma_route_texts();
    let path = percent_prefix() + segment;
    assert(path.take(1) =~= percent_prefix());
    assert(path.skip(1) =~= segment);
    assert(path[1] == segment[0]);
    let digits = unsigned_digits(segment);
    assert(is_digit(digits[0]));
    assert(!is_health_path(path)) by {
        if is_health_path(path) {
            assert(segment[0] == 104 || segment[0] == 108 || segment[0] == 114);
            assert(digits[0] == segment[0]);
        }
    }
    assert(!fits_template(path, latency_prefix())) by {
        if starts_with(path, latency_prefix()) {
            assert(path.take(9)[8] == SLASH);
            assert(segment[7] == SLASH);
        }
    }
}

/// A path made of `/` and one segment that writes no percentage leads to a
/// bad parameter, unless it is one of the three health paths.
pub proof fn lemma_percent_template_malformed(segment: Seq<u8>)
    requires
        is_segment(segment),
        unsigned_of(segment, MAX_PERCENT) is None,
        !is_health_path(percent_prefix() + segment),
    ensures
        path_route(percent_prefix() + segment) == Route::BadParameter,
{
    lemma_route_texts();
    let path = percent_prefix() + segment;
    assert(path.take(1) =~= percent_prefix());
    assert(path.skip(1) =~= segment);
    assert(!fits_template(path, latency_prefix())) by {
        if starts_with(path, latency_prefix()) {
            assert(path.take(9)[8] == SLASH);
            assert(segment[7] == SLASH);
        }
    }
}

/// The path of a percentage, written the shortest way, leads to the
/// failure-injection route with that percentage; the path of a delay leads
/// to the latency route with that delay.
pub proof fn lemma_number_paths(percent: u32, ms: u64)
    ensures
        is_segment(decimal_text(percent as nat)),
        is_segment(decimal_text(ms as nat)),
        route_of(get_method(), percent_prefix() + decimal_text(percent as nat)) == Route::Percent(
            percent,
        ),
        route_of(get_method(), latency_prefix() + decimal_text(ms as nat)) == Route::Latency(ms),
{
    lemma_decimal_text_reads_back(percent as nat);
    lemma_decimal_text_reads_back(ms as nat);
    assert(is_segment(decimal_text(percent as nat))) by {
        assert forall|i: int| 0 <= i < decimal_text(percent as nat).len() implies decimal_text(
            percent as nat,
        )[i] != SLASH by {
            assert(is_digit(decimal_text(percent as nat)[i]));
        }
    }
    assert(is_segment(decimal_text(ms as nat))) by {
        assert forall|i: int| 0 <= i < decimal_text(ms as nat).len() implies decimal_text(
            ms as nat,
        )[i] != SLASH by {
            assert(is_digit(decimal_text(ms as nat)[i]));
        }
    }
    lemma_percent_template(decimal_text(percent as nat), percent);
    lemma_latency_template(decimal_text(ms as nat));
}

/// A request for zero percent never fails: whatever the draw, the reply is
/// 200 with an empty body.
pub proof fn law_zero_percent_never_fails(segment: Seq<u8>, plan: Plan)
    requires
        is_segment(segment),
        unsigned_of(segment, MAX_PERCENT) == Some(0u64),
        answers(route_of(get_method(), percent_prefix() + segment), plan),
    ensures
        plan.reply == bare_reply(OK),
{
    lemma_percent_template(segment, 0);
}

/// A request for a hundred percent or more always fails: whatever the draw,
/// the reply is 500 with an empty body.
pub proof fn law_hundred_percent_and_above_always_fail(segment: Seq<u8>, percent: u32, plan: Plan)
    requires
        is_segment(segment),
        unsigned_of(segment, MAX_PERCENT) == Some(percent as u64),
        percent >= HUNDRED,
        answers(route_of(get_method(), percent_prefix() + segment), plan),
    ensures
        plan.reply == bare_reply(INTERNAL_SERVER_ERROR),
{
    lemma_percent_template(segment, percent);
}

/// A request for a percentage, whichever it is, is answered with 200 or
/// with 500, with an empty body and at once.
pub proof fn law_percent_replies(segment: Seq<u8>, percent: u32, plan: Plan)
    requires
        is_segment(segment),
        unsigned_of(segment, MAX_PERCENT) == Some(percent as u64),
        answers(route_of(get_method(), percent_prefix() + segment), plan),
    ensures
        plan.reply == bare_reply(OK) || plan.reply == bare_reply(INTERNAL_SERVER_ERROR),
        plan.delay_ms == 0,
{
    lemma_percent_template(segment, percent);
}

/// A request for a delay within the cap is answered with 200 and an empty
/// body after exactly that delay.
pub proof fn law_latency_within_cap(segment: Seq<u8>, ms: u64, plan: Plan)
    requires
        is_segment(segment),
        unsigned_of(segment, MAX_MILLISECONDS) == Some(ms),
        ms <= MAX_LATENCY_MS,
        answers(route_of(get_method(), latency_prefix() + segment), plan),
    ensures
        plan.reply == bare_reply(OK),
        plan.delay_ms == ms,
{
    lemma_latency_template(segment);
}

/// A request for a delay above the cap is refused at once: 500 with the
/// diagnostic body, and no delay.
pub proof fn law_latency_above_cap(segment: Seq<u8>, ms: u64, plan: Plan)
    requires
        is_segment(segment),
        unsigned_of(segment, MAX_MILLISECONDS) == Some(ms),
        ms > MAX_LATENCY_MS,
        answers(route_of(get_method(), latency_prefix() + segment), plan),
    ensures
        plan.reply == (Reply { status: INTERNAL_SERVER_ERROR, body: LATENCY_REFUSED_BODY }),
        plan.delay_ms == 0,
{
    lemma_latency_template(segment);
}

/// The three health paths are always answered with 200 and an empty body,
/// at once.
pub proof fn law_health_always_ok(path: Seq<u8>, plan: Plan)
    requires
        is_health_path(path),
        answers(route_of(get_method(), path), plan),
    ensures
        plan == bare_plan(OK),
{
}

/// A parameter that is no unsigned integer of the route's width is always
/// answered with 400, on both parametric routes.
pub proof fn law_malformed_parameter(segment: Seq<u8>, plan: Plan)
    requires
        is_segment(segment),
    ensures
        unsigned_of(segment, MAX_MILLISECONDS) is None && answers(
            route_of(get_method(), latency_prefix() + segment),
            plan,
        ) ==> plan == bare_plan(BAD_REQUEST),
        unsigned_of(segment, MAX_PERCENT) is None && !is_health_path(percent_prefix() + segment)
            && answers(route_of(get_method(), percent_prefix() + segment), plan) ==> plan
            == bare_plan(BAD_REQUEST),
{
    lemma_latency_template(segment);
    if unsigned_of(segment, MAX_PERCENT) is None && !is_health_path(percent_prefix() + segment) {
        lemma_percent_template_malformed(segment);
    }
}

/// A method other than GET is never served: the answer is 404 where the
/// path fits no route and 405 where it fits one.
pub proof fn law_only_get_is_served(method: Seq<u8>, path: Seq<u8>, plan: Plan)
    requires
        method != get_method(),
        answers(route_of(method, path), plan),
    ensures
        plan == bare_plan(NOT_FOUND) || plan == bare_plan(METHOD_NOT_ALLOWED),
        plan == bare_plan(NOT_FOUND) <==> path_route(path) == Route::NotFound,
{
}

/// No answer waits longer than the cap of the latency route.
pub proof fn law_delay_is_capped(route: Route, plan: Plan)
    requires
        answers(route, plan),
    ensures
        plan.delay_ms <= MAX_LATENCY_MS,
{
}

} // verus!
