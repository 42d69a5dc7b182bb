//! The callback-async backend: the browser's geolocation API.
//!
//! The browser only answers position requests through callbacks. A cache
//! filled by the success callback lets `last_known` be answered
//! synchronously; the caller owns the cache and hands each callback's
//! outcome to it.

use vstd::prelude::*;
use crate::coordinates::Coordinates;

verus! {

/// How long the browser may take to answer a position request, in
/// milliseconds.
pub const REQUEST_TIMEOUT_MILLIS: u32 = 10000;

/// The oldest browser-side cached position that filling the cache accepts,
/// in milliseconds.
pub const CACHE_FILL_MAXIMUM_AGE_MILLIS: u32 = 60000;

/// What a position request asks of the browser.
#[derive(Clone, Copy, Debug, PartialEq, Eq, Structural)]
pub struct PositionRequestOptions {
    pub enable_high_accuracy: bool,
    pub timeout_millis: u32,
    pub maximum_age_millis: u32,
}

/// The options of a request that fills the cache: low accuracy, a ten-second
/// timeout, browser-side positions up to a minute old.
pub open spec fn cache_fill_options() -> PositionRequestOptions {
    PositionRequestOptions {
        enable_high_accuracy: false,
        timeout_millis: REQUEST_TIMEOUT_MILLIS,
        maximum_age_millis: CACHE_FILL_MAXIMUM_AGE_MILLIS,
    }
}

/// The options of an explicit request: high accuracy, a ten-second timeout,
/// no browser-side cached position.
pub open spec fn fresh_fix_options() -> PositionRequestOptions {
    PositionRequestOptions {
        enable_high_accuracy: true,
        timeout_millis: REQUEST_TIMEOUT_MILLIS,
        maximum_age_millis: 0,
    }
}

/// How far the browser offers geolocation.
#[derive(Clone, Copy, Debug, PartialEq, Eq, Structural)]
pub enum GeolocationAccess {
    /// There is no browsing context.
    NoWindow,
    /// The browsing context has no geolocation API.
    Unavailable,
    /// The geolocation API can be called.
    Available,
}

/// What a position request's callback delivered.
#[derive(Clone, Copy, Debug, PartialEq, Eq, Structural)]
pub enum PositionOutcome {
    Success(Coordinates),
    Failure,
}

/// The cache after an outcome: a success replaces it, a failure leaves it.
pub open spec fn record(cached: Option<Coordinates>, o: PositionOutcome) -> Option<Coordinates> {
    match o {
        PositionOutcome::Success(c) => Some(c),
        PositionOutcome::Failure => cached,
    }
}

/// The cache after the outcomes `os`, delivered in order, starting from
/// `cached`.
pub open spec fn replay(cached: Option<Coordinates>, os: Seq<PositionOutcome>) -> Option<Coordinates>
    decreases os.len(),
{
    if os.len() == 0 {
        cached
    } else {
        record(replay(cached, os.drop_last()), os.last())
    }
}

/// Position `i` of `os` holds the last success among them.
pub open spec fn is_last_success(os: Seq<PositionOutcome>, i: int) -> bool {
    &&& 0 <= i < os.len()
    &&& os[i] is Success
    &&& forall|j: int| i < j < os.len() ==> !(#[trigger] os[j] is Success)
}

/// The position cache, empty until a success callback fires.
pub struct PositionCache {
    cached: Option<Coordinates>,
}

impl View for PositionCache {
    type V = Option<Coordinates>;

    closed spec fn view(&self) -> Option<Coordinates> {
        self.cached
    }
}

impl PositionCache {
    /// An empty cache.
    pub fn new() -> (r: PositionCache)
        ensures
            r@ is None,
    {
        PositionCache { cached: None }
    }

    /// Stores the position that a success callback delivered.
    pub fn update_cached_position(&mut self, c: Coordinates)
        ensures
            final(self)@ == Some(c),
    {
        self.cached = Some(c);
    }

    /// Hands the cache what a callback delivered.
    pub fn record_outcome(&mut self, o: PositionOutcome)
        ensures
            final(self)@ == record(old(self)@, o),
    {
        match o {
            PositionOutcome::Success(c) => self.update_cached_position(c),
            PositionOutcome::Failure => {},
        }
    }
}

/// The cached position; no native call is made.
pub fn last_known(cache: &PositionCache) -> (r: Option<Coordinates>)
    ensures
        r == cache@,
{
    cache.cached
}

/// Whether to issue a cache-filling request, and with which options: `None`
/// when geolocation is not available, so that nothing is issued and `false`
/// is returned; otherwise the request is issued with these options and the
/// result is whether issuing it succeeded.
pub fn get_current_position_sync(access: GeolocationAccess) -> (r: Option<PositionRequestOptions>)
    ensures
        r == (if access == GeolocationAccess::Available {
            Some(cache_fill_options())
        } else {
            None
        }),
{
    match access {
        GeolocationAccess::Available => Some(
            PositionRequestOptions {
                enable_high_accuracy: false,
                timeout_millis: REQUEST_TIMEOUT_MILLIS,
                maximum_age_millis: CACHE_FILL_MAXIMUM_AGE_MILLIS,
            },
        ),
        _ => None,
    }
}

/// A permission request: where geolocation is available it issues a
/// cache-filling request, which shows the browser's prompt.
pub fn request_permission(access: GeolocationAccess) -> (r: Option<PositionRequestOptions>)
    ensures
        r == (if access == GeolocationAccess::Available {
            Some(cache_fill_options())
        } else {
            None
        }),
{
    match access {
        GeolocationAccess::Available => get_current_position_sync(access),
        _ => None,
    }
}

/// Why an explicit position request could not be issued.
#[derive(Clone, Copy, Debug, PartialEq, Eq, Structural)]
pub enum RequestError {
    NoWindow,
    GeolocationUnavailable,
    RequestRejected,
}

/// The text each request error is reported with.
pub open spec fn request_error_message(e: RequestError) -> Seq<char> {
    match e {
        RequestError::NoWindow => "No window object"@,
        RequestError::GeolocationUnavailable => "Geolocation not available"@,
        RequestError::RequestRejected => "Failed to request position"@,
    }
}

impl RequestError {
    /// The text this error is reported with.
    pub fn message(&self) -> (r: String)
        ensures
            r@ == request_error_message(*self),
    {
        match self {
            RequestError::NoWindow => "No window object".to_owned(),
            RequestError::GeolocationUnavailable => "Geolocation not available".to_owned(),
            RequestError::RequestRejected => "Failed to request position".to_owned(),
        }
    }
}

/// The options of an explicit position request, or why it cannot be issued.
/// The eventual position, or its failure, goes to the caller's callbacks.
pub fn get_current_position(access: GeolocationAccess) -> (r: core::result::Result<PositionRequestOptions, RequestError>)
    ensures
        r == (match access {
            GeolocationAccess::NoWindow => Err(RequestError::NoWindow),
            GeolocationAccess::Unavailable => Err(RequestError::GeolocationUnavailable),
            GeolocationAccess::Available => Ok(fresh_fix_options()),
        }),
{
    match access {
        GeolocationAccess::NoWindow => Err(RequestError::NoWindow),
        GeolocationAccess::Unavailable => Err(RequestError::GeolocationUnavailable),
        GeolocationAccess::Available => Ok(
            PositionRequestOptions {
                enable_high_accuracy: true,
                timeout_millis: REQUEST_TIMEOUT_MILLIS,
                maximum_age_millis: 0,
            },
        ),
    }
}

/// The result of an explicit request once the browser was asked: an error
/// only when the browser refused the request itself.
pub fn position_request_result(issued: bool) -> (r: core::result::Result<(), RequestError>)
    ensures
        r == (if issued {
            Ok(())
        } else {
            Err(RequestError::RequestRejected)
        }),
{
    if issued {
        Ok(())
    } else {
        Err(RequestError::RequestRejected)
    }
}

/// Starting from an empty cache, the cache holds nothing until a success
/// callback fires, and afterwards exactly the coordinate of the most recent
/// success; a failure never changes it.
pub proof fn lemma_cache_holds_last_success(os: Seq<PositionOutcome>)
    ensures
        (forall|j: int| 0 <= j < os.len() ==> !(#[trigger] os[j] is Success)) ==> replay(None, os)
            is None,
        forall|i: int| #[trigger] is_last_success(os, i) ==> replay(None, os) == Some(os[i]->Success_0),
        forall|c: Option<Coordinates>| #[trigger] record(c, PositionOutcome::Failure) == c,
    decreases os.len(),
{
    if os.len() > 0 {
        let p = os.drop_last();
        let n = os.len() - 1;
        lemma_cache_holds_last_success(p);
        assert forall|j: int| 0 <= j < p.len() implies p[j] == os[j] by {}
        if os.last() is Failure {
            assert forall|i: int| #[trigger] is_last_success(os, i) implies replay(None, os) == Some(
                os[i]->Success_0,
            ) by {
                assert(i < n);
                assert(is_last_success(p, i));
            }
        } else {
            assert forall|i: int| #[trigger] is_last_success(os, i) implies replay(None, os) == Some(
                os[i]->Success_0,
            ) by {
                assert(i == n);
            }
        }
    }
}

} // verus!
