//! Geographic coordinates as produced by a platform backend.

use vstd::prelude::*;

verus! {

/// A geographic coordinate. Latitude and longitude are 64-bit IEEE-754
/// values held as their bit patterns: this layer never interprets them, it
/// only carries what the platform produced.
#[derive(Clone, Copy, Debug, PartialEq, Eq, Structural)]
pub struct Coordinates {
    pub latitude_bits: u64,
    pub longitude_bits: u64,
}

impl Coordinates {
    /// A coordinate from the bit patterns of its latitude and longitude.
    pub fn from_bits(latitude_bits: u64, longitude_bits: u64) -> (r: Coordinates)
        ensures
            r.latitude_bits == latitude_bits,
            r.longitude_bits == longitude_bits,
    {
        Coordinates { latitude_bits, longitude_bits }
    }

    /// The bit patterns of latitude and longitude, in that order.
    pub fn to_bits(&self) -> (r: (u64, u64))
        ensures
            r == (self.latitude_bits, self.longitude_bits),
    {
        (self.latitude_bits, self.longitude_bits)
    }
}

} // verus!
