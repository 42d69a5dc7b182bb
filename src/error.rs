//! Errors surfaced through the crate-level `Result`.

use vstd::prelude::*;
use jni::errors::Error as JniError;

verus! {

/// Result type for geolocation operations.
pub type Result<T> = core::result::Result<T, Error>;

/// An error that can occur when fetching the location.
#[derive(Clone, Copy, Debug, PartialEq, Eq, Structural)]
pub enum Error {
    /// An error occurred with the Android Java environment.
    AndroidEnvironment,
    /// The user denied authorization.
    AuthorizationDenied,
    /// A network error occurred.
    Network,
    /// The function was not called from the main thread.
    NotMainThread,
    /// Location data is temporarily unavailable.
    TemporarilyUnavailable,
    /// This device does not support location data.
    PermanentlyUnavailable,
    /// An unknown error occurred.
    Unknown,
}

/// The fixed human-readable text of each error.
pub open spec fn error_message(e: Error) -> Seq<char> {
    match e {
        Error::AndroidEnvironment => "Android Java environment error"@,
        Error::AuthorizationDenied => "Location authorization denied"@,
        Error::Network => "Network error"@,
        Error::NotMainThread => "Function must be called from main thread"@,
        Error::TemporarilyUnavailable => "Location temporarily unavailable"@,
        Error::PermanentlyUnavailable => "Location not supported on this device"@,
        Error::Unknown => "Unknown error"@,
    }
}

impl Error {
    /// The human-readable text of this error.
    pub fn message(&self) -> (r: String)
        ensures
            r@ == error_message(*self),
    {
        match self {
            Error::AndroidEnvironment => "Android Java environment error".to_owned(),
            Error::AuthorizationDenied => "Location authorization denied".to_owned(),
            Error::Network => "Network error".to_owned(),
            Error::NotMainThread => "Function must be called from main thread".to_owned(),
            Error::TemporarilyUnavailable => "Location temporarily unavailable".to_owned(),
            Error::PermanentlyUnavailable => "Location not supported on this device".to_owned(),
            Error::Unknown => "Unknown error".to_owned(),
        }
    }
}

#[verifier::external_type_specification]
#[verifier::external_body]
pub struct ExJniError(JniError);

impl From<JniError> for Error {
    /// Every failure at the Java bridge is reported as an environment error.
    fn from(_e: JniError) -> (r: Error)
        ensures
            r == Error::AndroidEnvironment,
    {
        Error::AndroidEnvironment
    }
}

impl vstd::std_specs::convert::FromSpecImpl<JniError> for Error {
    open spec fn obeys_from_spec() -> bool {
        true
    }

    open spec fn from_spec(_e: JniError) -> Error {
        Error::AndroidEnvironment
    }
}

} // verus!
