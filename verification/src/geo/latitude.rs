use vstd::prelude::*;

verus! {

/// The northernmost latitude, in microdegrees.
pub const MAX_LATITUDE: i64 = 90_000_000;

/// The nearest value to `value` within the span from the south pole to the north pole.
pub open spec fn clamp_latitude(value: int) -> int {
    if value < -MAX_LATITUDE {
        -MAX_LATITUDE as int
    } else if value > MAX_LATITUDE {
        MAX_LATITUDE as int
    } else {
        value
    }
}

/// A latitude on the globe, held in whole microdegrees north of the equator.
#[derive(Clone, Copy, PartialEq, Eq, Debug)]
pub struct Latitude {
    microdegrees: i64,
}

impl View for Latitude {
    type V = int;

    closed spec fn view(&self) -> int {
        self.microdegrees as int
    }
}

impl Latitude {
    /// Whether the latitude lies on the globe.
    pub open spec fn wf(self) -> bool {
        -MAX_LATITUDE <= self@ <= MAX_LATITUDE
    }

    #[verifier::type_invariant]
    closed spec fn inv(self) -> bool {
        self.wf()
    }

    /// Two latitudes of the same number of microdegrees are the same latitude.
    pub proof fn lemma_view_injective(self, other: Latitude)
        requires
            self@ == other@,
        ensures
            self == other,
    {
    }

    /// The latitude nearest to `value` microdegrees that lies on the globe.
    pub fn from_microdegrees(value: i64) -> (result: Latitude)
        ensures
            result@ == clamp_latitude(value as int),
            result.wf(),
    {
        let clamped: i64 = if value < -MAX_LATITUDE {
            -MAX_LATITUDE
        } else if value > MAX_LATITUDE {
            MAX_LATITUDE
        } else {
            value
        };
        Latitude { microdegrees: clamped }
    }

    /// The latitude from whole degrees.
    pub fn from_degrees(degrees: i16) -> (result: Latitude)
        ensures
            result@ == clamp_latitude(degrees as int * 1_000_000),
            result.wf(),
    {
        Latitude::from_microdegrees((degrees as i64) * 1_000_000)
    }

    /// The latitude in microdegrees.
    pub fn as_microdegrees(&self) -> (result: i64)
        ensures
            result == self@,
            self.wf(),
    {
        proof {
            use_type_invariant(self);
        }
        self.microdegrees
    }
}

} // verus!
