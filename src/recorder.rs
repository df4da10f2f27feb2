//! Where each registration of the recorder goes: gauges with a marked name
//! into the registry; everything else to the fallback recorder, if there is
//! one, and nowhere otherwise.
use vstd::prelude::*;

use crate::registry::{is_captured, is_marked};

verus! {

/// The destination of a registration or a description.
#[derive(Clone, Copy, Debug, PartialEq, Eq, Structural)]
pub enum Route {
    /// The registry of captured gauges.
    Registry,
    /// The fallback recorder.
    Fallback,
    /// Nowhere: the handle does nothing.
    Noop,
}

/// Where the registration of a gauge named `name` goes.
pub open spec fn gauge_route(name: Seq<char>, has_fallback: bool) -> Route {
    if is_marked(name) {
        Route::Registry
    } else if has_fallback {
        Route::Fallback
    } else {
        Route::Noop
    }
}

/// Where a counter, a histogram or a description goes: never to the
/// registry.
pub open spec fn delegated_route(has_fallback: bool) -> Route {
    if has_fallback {
        Route::Fallback
    } else {
        Route::Noop
    }
}

/// Where the registration of a gauge named `name` goes.
pub fn route_gauge(name: &str, has_fallback: bool) -> (r: Route)
    ensures
        r == gauge_route(name@, has_fallback),
{
    if is_captured(name) {
        Route::Registry
    } else if has_fallback {
        Route::Fallback
    } else {
        Route::Noop
    }
}

/// Where a counter, a histogram or a description goes.
pub fn route_delegated(has_fallback: bool) -> (r: Route)
    ensures
        r == delegated_route(has_fallback),
{
    if has_fallback {
        Route::Fallback
    } else {
        Route::Noop
    }
}

/// A gauge whose name has no marker never reaches the registry: it goes to
/// the fallback recorder when there is one, and nowhere otherwise.
pub proof fn lemma_unmarked_gauge_bypasses_registry(name: Seq<char>, has_fallback: bool)
    requires
        !is_marked(name),
    ensures
        gauge_route(name, has_fallback) != Route::Registry,
        has_fallback ==> gauge_route(name, has_fallback) == Route::Fallback,
{
}

} // verus!
