use dioxus_mobile_geolocation::android::{from_bridge, location_outcome, permission_outcome};
use dioxus_mobile_geolocation::coordinates::Coordinates;
use dioxus_mobile_geolocation::darwin::{
    self, AuthorizationState, NativeAction, NativeEvent, NativeSession, Operation, FIX_WAIT_MILLIS,
};
use dioxus_mobile_geolocation::error::Error;
use dioxus_mobile_geolocation::registry::{CapabilityToggles, PermissionRegistry, Target};
use dioxus_mobile_geolocation::unsupported;
use dioxus_mobile_geolocation::web::{
    self, GeolocationAccess, PositionCache, PositionOutcome, PositionRequestOptions, RequestError,
};
use dioxus_mobile_geolocation::{last_known_location, request_location_permission, Backend};

fn coord(lat: f64, lon: f64) -> Coordinates {
    Coordinates::from_bits(lat.to_bits(), lon.to_bits())
}

fn as_f64(c: Coordinates) -> (f64, f64) {
    let (a, b) = c.to_bits();
    (f64::from_bits(a), f64::from_bits(b))
}

/// Runs a session against scripted platform answers, returning every action
/// it asked for, the finishing one last.
fn drive(mut session: NativeSession, first: NativeAction, status: AuthorizationState, fixes: &[Option<Coordinates>]) -> Vec<NativeAction> {
    let mut actions = vec![first];
    let mut fixes = fixes.iter();
    let mut action = first;
    while !session.is_finished() {
        let event = match action {
            NativeAction::CreateManager => NativeEvent::ManagerCreated,
            NativeAction::QueryAuthorization => NativeEvent::Authorization(status),
            NativeAction::QueryCachedLocation => NativeEvent::CachedLocation(*fixes.next().unwrap()),
            _ => NativeEvent::Completed,
        };
        action = session.step(event);
        actions.push(action);
    }
    actions
}

#[test]
fn off_thread_calls_make_no_native_call() {
    for ready in [false, true] {
        let (s, a) = darwin::request_permission(false, ready);
        assert!(s.is_finished());
        assert_eq!(a, NativeAction::FinishPermission(false));
        let (s, a) = darwin::last_known(false, ready);
        assert!(s.is_finished());
        assert_eq!(a, NativeAction::FinishLocation(None));
    }
}

#[test]
fn prompt_only_when_not_determined() {
    let states = [
        AuthorizationState::NotDetermined,
        AuthorizationState::Denied,
        AuthorizationState::AuthorizedCoarse,
        AuthorizationState::AuthorizedFine,
        AuthorizationState::Restricted,
    ];
    for state in states {
        let (s, a) = darwin::request_permission(true, false);
        let actions = drive(s, a, state, &[]);
        let prompts = actions.iter().filter(|a| **a == NativeAction::RequestWhenInUseAuthorization).count();
        assert_eq!(prompts, if state == AuthorizationState::NotDetermined { 1 } else { 0 });
        assert_eq!(*actions.last().unwrap(), NativeAction::FinishPermission(true));
    }
}

#[test]
fn cached_fix_takes_fast_path() {
    let fix = coord(37.7749, -122.4194);
    let (s, a) = darwin::last_known(true, true);
    let actions = drive(s, a, AuthorizationState::AuthorizedCoarse, &[Some(fix)]);
    assert_eq!(
        actions,
        vec![NativeAction::QueryAuthorization, NativeAction::QueryCachedLocation, NativeAction::FinishLocation(Some(fix))]
    );
    if let NativeAction::FinishLocation(Some(c)) = actions[2] {
        assert_eq!(as_f64(c), (37.7749, -122.4194));
    } else {
        panic!("no fix");
    }
}

#[test]
fn slow_path_without_fix_stops_updates() {
    let (s, a) = darwin::last_known(true, false);
    let actions = drive(s, a, AuthorizationState::Denied, &[None, None]);
    assert_eq!(
        actions,
        vec![
            NativeAction::CreateManager,
            NativeAction::QueryAuthorization,
            NativeAction::QueryCachedLocation,
            NativeAction::StartUpdatingLocation,
            NativeAction::Sleep { millis: 1000 },
            NativeAction::QueryCachedLocation,
            NativeAction::StopUpdatingLocation,
            NativeAction::FinishLocation(None),
        ]
    );
    assert_eq!(FIX_WAIT_MILLIS, 1000);
}

#[test]
fn slow_path_with_late_fix_still_stops_updates() {
    let fix = coord(1.5, 2.5);
    let (s, a) = darwin::last_known(true, true);
    let actions = drive(s, a, AuthorizationState::AuthorizedFine, &[None, Some(fix)]);
    let n = actions.len();
    assert_eq!(actions[n - 2], NativeAction::StopUpdatingLocation);
    assert_eq!(actions[n - 1], NativeAction::FinishLocation(Some(fix)));
}

#[test]
fn unexpected_answer_while_updating_stops_updates_first() {
    let (mut s, _) = NativeSession::start(Operation::LastKnown, true, true);
    s.step(NativeEvent::Authorization(AuthorizationState::AuthorizedFine));
    assert_eq!(s.step(NativeEvent::CachedLocation(None)), NativeAction::StartUpdatingLocation);
    assert_eq!(s.step(NativeEvent::ManagerCreated), NativeAction::StopUpdatingLocation);
    assert_eq!(s.step(NativeEvent::Completed), NativeAction::FinishLocation(None));
    assert!(s.is_finished());
}

#[test]
fn any_answer_while_stopping_ends_the_query() {
    let (mut s, _) = NativeSession::start(Operation::LastKnown, true, true);
    s.step(NativeEvent::Authorization(AuthorizationState::AuthorizedFine));
    s.step(NativeEvent::CachedLocation(None));
    s.step(NativeEvent::Completed);
    s.step(NativeEvent::Completed);
    assert_eq!(s.step(NativeEvent::CachedLocation(Some(coord(1.0, 1.0)))), NativeAction::StopUpdatingLocation);
    assert_eq!(s.step(NativeEvent::ManagerCreated), NativeAction::FinishLocation(None));
    assert!(s.is_finished());
    assert!(!s.updating);
}

#[test]
fn starts_and_stops_balance_when_finished() {
    for fixes in [[None, None], [None, Some(coord(3.0, 4.0))]] {
        let (s, a) = darwin::last_known(true, false);
        let actions = drive(s, a, AuthorizationState::AuthorizedCoarse, &fixes);
        let starts = actions.iter().filter(|a| **a == NativeAction::StartUpdatingLocation).count();
        let stops = actions.iter().filter(|a| **a == NativeAction::StopUpdatingLocation).count();
        assert_eq!((starts, stops), (1, 1));
    }
}

#[test]
fn cache_empty_before_any_request() {
    let cache = PositionCache::new();
    assert_eq!(web::last_known(&cache), None);
}

#[test]
fn cache_holds_success_callback_value() {
    let mut cache = PositionCache::new();
    assert_eq!(web::get_current_position_sync(GeolocationAccess::Available).is_some(), true);
    cache.record_outcome(PositionOutcome::Success(coord(51.5074, -0.1278)));
    assert_eq!(as_f64(web::last_known(&cache).unwrap()), (51.5074, -0.1278));
}

#[test]
fn cache_keeps_last_success_through_failures() {
    let mut cache = PositionCache::new();
    cache.record_outcome(PositionOutcome::Failure);
    assert_eq!(web::last_known(&cache), None);
    cache.record_outcome(PositionOutcome::Success(coord(1.0, 2.0)));
    cache.record_outcome(PositionOutcome::Success(coord(3.0, 4.0)));
    cache.record_outcome(PositionOutcome::Failure);
    assert_eq!(web::last_known(&cache), Some(coord(3.0, 4.0)));
    cache.update_cached_position(coord(5.0, 6.0));
    assert_eq!(web::last_known(&cache), Some(coord(5.0, 6.0)));
}

#[test]
fn web_request_options() {
    let fill = PositionRequestOptions { enable_high_accuracy: false, timeout_millis: 10000, maximum_age_millis: 60000 };
    let fresh = PositionRequestOptions { enable_high_accuracy: true, timeout_millis: 10000, maximum_age_millis: 0 };
    assert_eq!(web::get_current_position_sync(GeolocationAccess::Available), Some(fill));
    assert_eq!(web::request_permission(GeolocationAccess::Available), Some(fill));
    assert_eq!(web::get_current_position(GeolocationAccess::Available), Ok(fresh));
    for access in [GeolocationAccess::NoWindow, GeolocationAccess::Unavailable] {
        assert_eq!(web::get_current_position_sync(access), None);
        assert_eq!(web::request_permission(access), None);
    }
}

#[test]
fn web_request_errors() {
    assert_eq!(web::get_current_position(GeolocationAccess::NoWindow), Err(RequestError::NoWindow));
    assert_eq!(web::get_current_position(GeolocationAccess::Unavailable), Err(RequestError::GeolocationUnavailable));
    assert_eq!(web::position_request_result(false), Err(RequestError::RequestRejected));
    assert_eq!(web::position_request_result(true), Ok(()));
    assert_eq!(RequestError::NoWindow.message(), "No window object");
    assert_eq!(RequestError::GeolocationUnavailable.message(), "Geolocation not available");
    assert_eq!(RequestError::RequestRejected.message(), "Failed to request position");
}

#[test]
fn unsupported_target() {
    assert!(!unsupported::request_permission());
    assert_eq!(unsupported::last_known(), None);
    let registry = PermissionRegistry::from_toggles(CapabilityToggles {
        location_coarse: true,
        location_fine: false,
        background_location: false,
    });
    assert_eq!(request_location_permission(&registry, Target::Linux), Backend::Stub);
    assert_eq!(last_known_location(&registry, Target::Windows), Backend::Stub);
}

#[test]
fn facade_dispatch() {
    let registry = PermissionRegistry::from_toggles(CapabilityToggles { location_coarse: false, location_fine: false, background_location: false });
    assert_eq!(request_location_permission(&registry, Target::Android), Backend::ManagedRuntime);
    assert_eq!(request_location_permission(&registry, Target::Ios), Backend::NativeBlocking);
    assert_eq!(last_known_location(&registry, Target::Macos), Backend::NativeBlocking);
    assert_eq!(last_known_location(&registry, Target::Web), Backend::CallbackAsync);
}

#[test]
fn metadata_for_native_targets_only() {
    let m = dioxus_mobile_geolocation::__ensure_metadata_linked(Target::Ios).unwrap();
    assert_eq!(m.plugin, "geolocation");
    assert_eq!(m.frameworks, vec!["CoreLocation".to_string(), "Foundation".to_string()]);
    assert!(dioxus_mobile_geolocation::__ensure_metadata_linked(Target::Macos).is_some());
    assert!(dioxus_mobile_geolocation::__ensure_metadata_linked(Target::Android).is_none());
    assert!(dioxus_mobile_geolocation::__ensure_metadata_linked(Target::Web).is_none());
}

#[test]
fn error_messages() {
    assert_eq!(Error::AndroidEnvironment.message(), "Android Java environment error");
    assert_eq!(Error::AuthorizationDenied.message(), "Location authorization denied");
    assert_eq!(Error::Network.message(), "Network error");
    assert_eq!(Error::NotMainThread.message(), "Function must be called from main thread");
    assert_eq!(Error::TemporarilyUnavailable.message(), "Location temporarily unavailable");
    assert_eq!(Error::PermanentlyUnavailable.message(), "Location not supported on this device");
    assert_eq!(Error::Unknown.message(), "Unknown error");
}

#[test]
fn bridge_failures_fold_to_absence() {
    let failed: Result<bool, jni::errors::Error> = Err(jni::errors::Error::JavaException);
    assert_eq!(from_bridge(failed), Err(Error::AndroidEnvironment));
    assert_eq!(from_bridge::<u8>(Ok(7)), Ok(7));
    assert_eq!(Error::from(jni::errors::Error::JavaException), Error::AndroidEnvironment);
    assert!(permission_outcome(Ok(true)));
    assert!(!permission_outcome(Ok(false)));
    assert!(!permission_outcome(Err(Error::AndroidEnvironment)));
    assert_eq!(location_outcome(Ok(Some(coord(1.0, 2.0)))), Some(coord(1.0, 2.0)));
    assert_eq!(location_outcome(Err(Error::AndroidEnvironment)), None);
}
