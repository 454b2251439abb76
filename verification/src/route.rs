//! The route table: which handler a method and a path lead to.

use crate::decimal::{parse_unsigned, unsigned_of};
use vstd::prelude::*;
use vstd::slice::slice_subrange;
use vstd::string::*;

verus! {

/// The byte `/`, which parts the segments of a path.
pub const SLASH: u8 = 47;

/// Greatest percentage that a path can carry.
pub const MAX_PERCENT: u64 = 0xffff_ffff;

/// Greatest number of milliseconds that a path can carry.
pub const MAX_MILLISECONDS: u64 = 0xffff_ffff_ffff_ffff;

/// Where a request leads.
#[derive(Clone, Copy, Debug, PartialEq, Eq)]
pub enum Route {
    /// `/{percent}`: fail with a chance of `percent` in a hundred.
    Percent(u32),
    /// `/latency/{ms}`: reply after `ms` milliseconds.
    Latency(u64),
    /// `/healthz`, `/livez` or `/readyz`.
    Health,
    /// The path fits a parametric route, but its parameter is no unsigned
    /// integer of the width that the route takes.
    BadParameter,
    /// The path fits no route.
    NotFound,
    /// The path fits a route, but the method is not GET.
    MethodNotAllowed,
}

/// The only method that the routes answer.
pub open spec fn get_method() -> Seq<u8> {
    "GET".spec_bytes()
}

/// What stands before the parameter of the failure-injection route.
pub open spec fn percent_prefix() -> Seq<u8> {
    "/".spec_bytes()
}

/// What stands before the parameter of the latency route.
pub open spec fn latency_prefix() -> Seq<u8> {
    "/latency/".spec_bytes()
}

/// `path` is one of the three health paths.
pub open spec fn is_health_path(path: Seq<u8>) -> bool {
    ||| path == "/healthz".spec_bytes()
    ||| path == "/livez".spec_bytes()
    ||| path == "/readyz".spec_bytes()
}

/// `text` can stand for a path parameter: it is not empty and holds no
/// slash.
pub open spec fn is_segment(text: Seq<u8>) -> bool {
    text.len() > 0 && forall|i: int| 0 <= i < text.len() ==> #[trigger] text[i] != SLASH
}

/// `text` begins with `prefix`.
pub open spec fn starts_with(text: Seq<u8>, prefix: Seq<u8>) -> bool {
    prefix.len() <= text.len() && text.take(prefix.len() as int) == prefix
}

/// `path` is `prefix` followed by exactly one segment.
pub open spec fn fits_template(path: Seq<u8>, prefix: Seq<u8>) -> bool {
    starts_with(path, prefix) && is_segment(path.skip(prefix.len() as int))
}

/// Where `path` leads when asked for with GET. A fixed path wins over a
/// parametric one, and the longer template over the shorter.
pub open spec fn path_route(path: Seq<u8>) -> Route {
    if is_health_path(path) {
        Route::Health
    } else if fits_template(path, latency_prefix()) {
        match unsigned_of(path.skip(latency_prefix().len() as int), MAX_MILLISECONDS) {
            Some(ms) => Route::Latency(ms),
            None => Route::BadParameter,
        }
    } else if fits_template(path, percent_prefix()) {
        match unsigned_of(path.skip(percent_prefix().len() as int), MAX_PERCENT) {
            Some(percent) => Route::Percent(percent as u32),
            None => Route::BadParameter,
        }
    } else {
        Route::NotFound
    }
}

/// Where a request for `path` with `method` leads. The method is looked at
/// only once the path fits a route, and before the parameter is read.
pub open spec fn route_of(method: Seq<u8>, path: Seq<u8>) -> Route {
    if path_route(path) == Route::NotFound || method == get_method() {
        path_route(path)
    } else {
        Route::MethodNotAllowed
    }
}

/// Whether two byte strings hold the same bytes.
pub fn bytes_equal(left: &[u8], right: &[u8]) -> (same: bool)
    ensures
        same == (left@ == right@),
{
    if left.len() != right.len() {
        return false;
    }
    let mut i: usize = 0;
    while i < left.len()
        invariant
            i <= left.len(),
            left@.len() == right@.len(),
            forall|j: int| 0 <= j < i ==> left@[j] == right@[j],
        decreases left.len() - i,
    {
        if left[i] != right[i] {
            return false;
        }
        i = i + 1;
    }
    assert(left@ =~= right@);
    true
}

/// Whether `path` is `prefix` followed by exactly one segment. If it is,
/// that segment is handed back.
fn strip_template<'a>(path: &'a [u8], prefix: &[u8]) -> (segment: Option<&'a [u8]>)
    ensures
        segment is Some == fits_template(path@, prefix@),
        segment matches Some(rest) ==> rest@ == path@.skip(prefix@.len() as int),
{
    if path.len() <= prefix.len() {
        return None;
    }
    if !bytes_equal(slice_subrange(path, 0, prefix.len()), prefix) {
        return None;
    }
    let rest = slice_subrange(path, prefix.len(), path.len());
    assert(rest@ =~= path@.skip(prefix@.len() as int));
    let mut i: usize = 0;
    while i < rest.len()
        invariant
            i <= rest.len(),
            rest@ == path@.skip(prefix@.len() as int),
            forall|j: int| 0 <= j < i ==> #[trigger] rest@[j] != SLASH,
        decreases rest.len() - i,
    {
        if rest[i] == SLASH {
            return None;
        }
        i = i + 1;
    }
    Some(rest)
}

/// Finds the route for a request from its method and its path, both as the
/// bytes that stood on the request line (the path without a query).
pub fn route(method: &[u8], path: &[u8]) -> (found: Route)
    ensures
        found == route_of(method@, path@),
{
    let is_get = bytes_equal(method, "GET".as_bytes());
    if bytes_equal(path, "/healthz".as_bytes()) || bytes_equal(path, "/livez".as_bytes())
        || bytes_equal(path, "/readyz".as_bytes()) {
        return if is_get { Route::Health } else { Route::MethodNotAllowed };
    }
    if let Some(segment) = strip_template(path, "/latency/".as_bytes()) {
        if !is_get {
            return Route::MethodNotAllowed;
        }
        return match parse_unsigned(segment, MAX_MILLISECONDS) {
            Some(ms) => Route::Latency(ms),
            None => Route::BadParameter,
        };
    }
    if let Some(segment) = strip_template(path, "/".as_bytes()) {
        if !is_get {
            return Route::MethodNotAllowed;
        }
        return match parse_unsigned(segment, MAX_PERCENT) {
            Some(percent) => Route::Percent(percent as u32),
            None => Route::BadParameter,
        };
    }
    Route::NotFound
}

} // verus!
