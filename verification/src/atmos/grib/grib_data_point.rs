use vstd::prelude::*;
use crate::geo::latitude::Latitude;
use crate::geo::longitude::Longitude;

verus! {

/// A decoded scalar, kept as the bit pattern of the single-precision number that the decoder
/// delivered. The library compares and copies readings; it never does arithmetic on them.
pub type Reading = u32;

/// The reading of zero.
pub const ZERO_READING: u32 = 0x0000_0000;

/// The reading of 288.15 kelvin, the temperature of the standard atmosphere at sea level.
pub const STANDARD_TEMPERATURE: u32 = 0x4390_1333;

/// The reading of 101325 pascals, the pressure of the standard atmosphere at sea level.
pub const STANDARD_PRESSURE: u32 = 0x47C5_E680;

/// The reading of 1e20, which marks a grid cell that holds no data.
pub const MISSING_VALUE: u32 = 0x60AD_78EC;

/// One atmospheric sample at a horizontal position and a pressure level.
#[derive(Clone, Copy, PartialEq, Eq, Debug)]
pub struct GribDataPoint {
    pub lat: Latitude,
    pub lon: Longitude,
    /// Geopotential height in metres.
    pub geo_pot_height: Reading,
    /// The pressure level as the message encodes it.
    pub level_pressure: i32,
    /// Temperature in kelvin.
    pub temp: Reading,
    /// Northward wind in metres per second.
    pub v: Reading,
    /// Eastward wind in metres per second.
    pub u: Reading,
    /// Relative humidity.
    pub rh: Reading,
    /// Pressure at the surface in pascals.
    pub sfc_press: Reading,
}

/// The sample that `GribDataPoint::new` makes: the standard atmosphere at rest.
pub open spec fn fresh_point(lat: Latitude, lon: Longitude, level_pressure: i32) -> GribDataPoint {
    GribDataPoint {
        lat,
        lon,
        geo_pot_height: ZERO_READING,
        level_pressure,
        temp: STANDARD_TEMPERATURE,
        v: ZERO_READING,
        u: ZERO_READING,
        rh: ZERO_READING,
        sfc_press: STANDARD_PRESSURE,
    }
}

impl GribDataPoint {
    /// A sample at the given position and level that holds the standard atmosphere at rest.
    pub fn new(lat: Latitude, lon: Longitude, level_pressure: i32) -> (result: GribDataPoint)
        ensures
            result == fresh_point(lat, lon, level_pressure),
    {
        GribDataPoint {
            lat,
            lon,
            geo_pot_height: ZERO_READING,
            level_pressure,
            temp: STANDARD_TEMPERATURE,
            v: ZERO_READING,
            u: ZERO_READING,
            rh: ZERO_READING,
            sfc_press: STANDARD_PRESSURE,
        }
    }
}

} // verus!
