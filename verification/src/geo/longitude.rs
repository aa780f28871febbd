use vstd::prelude::*;

verus! {

/// The easternmost longitude, in microdegrees.
pub const MAX_LONGITUDE: i64 = 180_000_000;

/// The microdegrees in one turn round the globe.
pub const FULL_TURN: i64 = 360_000_000;

/// The longitude that `value` microdegrees east of Greenwich names: `value` itself from the
/// antimeridian in the west to the antimeridian in the east, both included, and otherwise the
/// value a whole number of turns away that is at least -180 degrees and below 180 degrees.
pub open spec fn wrap_longitude(value: int) -> int {
    if -MAX_LONGITUDE <= value <= MAX_LONGITUDE {
        value
    } else {
        (value + MAX_LONGITUDE) % (FULL_TURN as int) - MAX_LONGITUDE
    }
}

/// The nearest value to `value` between the two antimeridians.
pub open spec fn clamp_longitude(value: int) -> int {
    if value < -MAX_LONGITUDE {
        -MAX_LONGITUDE as int
    } else if value > MAX_LONGITUDE {
        MAX_LONGITUDE as int
    } else {
        value
    }
}

/// A longitude on the globe, held in whole microdegrees east of Greenwich.
#[derive(Clone, Copy, PartialEq, Eq, Debug)]
pub struct Longitude {
    microdegrees: i64,
}

impl View for Longitude {
    type V = int;

    closed spec fn view(&self) -> int {
        self.microdegrees as int
    }
}

impl Longitude {
    /// Whether the longitude lies on the globe.
    pub open spec fn wf(self) -> bool {
        -MAX_LONGITUDE <= self@ <= MAX_LONGITUDE
    }

    #[verifier::type_invariant]
    closed spec fn inv(self) -> bool {
        self.wf()
    }

    /// Two longitudes of the same number of microdegrees are the same longitude.
    pub proof fn lemma_view_injective(self, other: Longitude)
        requires
            self@ == other@,
        ensures
            self == other,
    {
    }

    /// The longitude that `value` microdegrees names.
    pub fn from_microdegrees(value: i64) -> (result: Longitude)
        ensures
            result@ == wrap_longitude(value as int),
            result.wf(),
    {
        if -MAX_LONGITUDE <= value && value <= MAX_LONGITUDE {
            return Longitude { microdegrees: value };
        }
        let wrapped: i64 = if value > 0 {
            let past: i64 = (value - MAX_LONGITUDE) % FULL_TURN;
            past - MAX_LONGITUDE
        } else {
            let short: i64 = (-MAX_LONGITUDE - 1 - value) % FULL_TURN;
            MAX_LONGITUDE - 1 - short
        };
        Longitude { microdegrees: wrapped }
    }

    /// The longitude nearest to `value` microdegrees, without wrapping round the globe.
    pub fn nearest_to_microdegrees(value: i64) -> (result: Longitude)
        ensures
            result@ == clamp_longitude(value as int),
            result.wf(),
    {
        let clamped: i64 = if value < -MAX_LONGITUDE {
            -MAX_LONGITUDE
        } else if value > MAX_LONGITUDE {
            MAX_LONGITUDE
        } else {
            value
        };
        Longitude { microdegrees: clamped }
    }

    /// The longitude from whole degrees.
    pub fn from_degrees(degrees: i16) -> (result: Longitude)
        ensures
            result@ == wrap_longitude(degrees as int * 1_000_000),
            result.wf(),
    {
        Longitude::from_microdegrees((degrees as i64) * 1_000_000)
    }

    /// The longitude in microdegrees.
    pub fn as_microdegrees(&self) -> (result: i64)
        ensures
            result == self@,
            self.wf(),
    {
        proof {
            use_type_invariant(self);
        }
        self.microdegrees
    }
}

} // verus!
