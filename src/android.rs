//! The managed-runtime backend (Android, through JNI).
//!
//! Any failure at the Java bridge becomes `Error::AndroidEnvironment` in the
//! crate-level `Result`; the two primary operations fold every error into
//! `false` or `None`.

use vstd::prelude::*;
use crate::coordinates::Coordinates;
use crate::error::{Error, Result};
use jni::errors::Error as JniError;

verus! {

/// The outcome of a call across the Java bridge, with any bridge failure
/// reported as `Error::AndroidEnvironment`.
pub fn from_bridge<T>(r: core::result::Result<T, JniError>) -> (out: Result<T>)
    ensures
        match r {
            Ok(v) => out == Ok::<T, Error>(v),
            Err(_) => out == Err::<T, Error>(Error::AndroidEnvironment),
        },
{
    match r {
        Ok(v) => Ok(v),
        Err(e) => Err(Error::from(e)),
    }
}

/// What a permission request reports: whether it was sent, `false` on any
/// error.
pub fn permission_outcome(r: Result<bool>) -> (sent: bool)
    ensures
        sent == (r == Ok::<bool, Error>(true)),
{
    match r {
        Ok(b) => b,
        Err(_) => false,
    }
}

/// What a location query reports: the fix if there is one, `None` on any
/// error.
pub fn location_outcome(r: Result<Option<Coordinates>>) -> (fix: Option<Coordinates>)
    ensures
        fix == (match r {
            Ok(l) => l,
            Err(_) => None,
        }),
{
    match r {
        Ok(l) => l,
        Err(_) => None,
    }
}

} // verus!
