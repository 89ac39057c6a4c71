use crate::errors::EngineError;
use vstd::prelude::*;

verus! {

/// Latitude bound, in microdegrees: 90 degrees.
pub const LAT_LIMIT_MICRODEG: i64 = 90_000_000;

/// Longitude bound, in microdegrees: 180 degrees.
pub const LNG_LIMIT_MICRODEG: i64 = 180_000_000;

/// Whether a latitude/longitude pair, in microdegrees, lies on the globe.
pub open spec fn coordinate_in_range(lat_microdeg: int, lng_microdeg: int) -> bool {
    &&& -LAT_LIMIT_MICRODEG <= lat_microdeg <= LAT_LIMIT_MICRODEG
    &&& -LNG_LIMIT_MICRODEG <= lng_microdeg <= LNG_LIMIT_MICRODEG
}

/// A geographic coordinate in degrees, held exactly as integer microdegrees.
/// Every value of this type lies on the globe: latitude in [-90, 90] degrees,
/// longitude in [-180, 180] degrees.
#[derive(Clone, Copy, Debug, PartialEq, Eq, Structural, Hash)]
pub struct GeoCoordinate {
    lat_microdeg: i64,
    lng_microdeg: i64,
}

impl GeoCoordinate {
    #[verifier::type_invariant]
    spec fn inv(self) -> bool {
        coordinate_in_range(self.lat_microdeg as int, self.lng_microdeg as int)
    }

    /// The latitude in microdegrees.
    pub closed spec fn lat(self) -> int {
        self.lat_microdeg as int
    }

    /// The longitude in microdegrees.
    pub closed spec fn lng(self) -> int {
        self.lng_microdeg as int
    }

    /// Builds a coordinate from microdegrees, rejecting anything off the
    /// globe.
    pub fn new(lat_microdeg: i64, lng_microdeg: i64) -> (r: Result<GeoCoordinate, EngineError>)
        ensures
            r is Ok <==> coordinate_in_range(lat_microdeg as int, lng_microdeg as int),
            r matches Ok(c) ==> c.lat() == lat_microdeg && c.lng() == lng_microdeg,
            r matches Err(e) ==> e == EngineError::InvalidCoordinate,
    {
        if -LAT_LIMIT_MICRODEG <= lat_microdeg && lat_microdeg <= LAT_LIMIT_MICRODEG
            && -LNG_LIMIT_MICRODEG <= lng_microdeg && lng_microdeg <= LNG_LIMIT_MICRODEG {
            Ok(GeoCoordinate { lat_microdeg, lng_microdeg })
        } else {
            Err(EngineError::InvalidCoordinate)
        }
    }

    /// The latitude in microdegrees, always within [-90, 90] degrees.
    pub fn lat_microdegrees(&self) -> (r: i64)
        ensures
            r == self.lat(),
            -LAT_LIMIT_MICRODEG <= r <= LAT_LIMIT_MICRODEG,
    {
        proof {
            use_type_invariant(*self);
        }
        self.lat_microdeg
    }

    /// The longitude in microdegrees, always within [-180, 180] degrees.
    pub fn lng_microdegrees(&self) -> (r: i64)
        ensures
            r == self.lng(),
            -LNG_LIMIT_MICRODEG <= r <= LNG_LIMIT_MICRODEG,
    {
        proof {
            use_type_invariant(*self);
        }
        self.lng_microdeg
    }
}

} // verus!
