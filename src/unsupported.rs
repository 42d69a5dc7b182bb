//! The backend of targets without location services: both operations are
//! constant and have no effect.

use vstd::prelude::*;
use crate::coordinates::Coordinates;

verus! {

/// No permission can be requested.
pub fn request_permission() -> (r: bool)
    ensures
        !r,
{
    false
}

/// No location is ever known.
pub fn last_known() -> (r: Option<Coordinates>)
    ensures
        r is None,
{
    None
}

} // verus!
