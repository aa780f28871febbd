use vstd::prelude::*;
use crate::geo::latitude::Latitude;
use crate::geo::longitude::Longitude;

verus! {

/// A point on or above the globe.
#[derive(Clone, Copy, PartialEq, Eq, Debug)]
pub struct GeoPoint {
    pub lat: Latitude,
    pub lon: Longitude,
    /// The altitude in millimetres.
    pub alt: i64,
}

impl GeoPoint {
    /// Whether both coordinates lie on the globe.
    pub open spec fn wf(self) -> bool {
        self.lat.wf() && self.lon.wf()
    }

    /// The point at the given coordinates and altitude.
    pub fn new(lat: Latitude, lon: Longitude, alt: i64) -> (result: GeoPoint)
        ensures
            result.lat == lat,
            result.lon == lon,
            result.alt == alt,
    {
        GeoPoint { lat, lon, alt }
    }
}

} // verus!
