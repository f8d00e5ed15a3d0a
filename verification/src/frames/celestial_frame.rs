//! Frames with a known gravitational parameter.

use vstd::prelude::*;
use crate::frames::frame::{Frame, FrameTrait};
use crate::naif::NaifId;
use crate::scalar::Scalar;

verus! {

/// What a frame can tell once its gravitational parameter is known.
pub trait CelestialFrameTrait: FrameTrait {
    /// Gravitational parameter, in km³/s².
    spec fn spec_mu_km3_s2(&self) -> Scalar;

    /// Gravitational parameter, in km³/s².
    fn mu_km3_s2(&self) -> (mu: Scalar)
        ensures
            mu == self.spec_mu_km3_s2(),
    ;
}

/// A frame and the gravitational parameter of its central body.
#[derive(Clone, Copy, Debug, PartialEq, Eq, Structural)]
pub struct CelestialFrame {
    pub frame: Frame,
    /// Gravitational parameter, in km³/s².
    pub mu_km3_s2: Scalar,
}

impl CelestialFrame {
    /// Tells whether the frame is one of a body: its gravitational parameter
    /// is not negative.
    pub open spec fn spec_is_valid(&self) -> bool {
        self.mu_km3_s2.is_non_negative()
    }

    /// Tells whether the frame is one of a body: its gravitational parameter
    /// is not negative.
    #[verifier::when_used_as_spec(spec_is_valid)]
    pub fn is_valid(&self) -> (valid: bool)
        ensures
            valid == self.spec_is_valid(),
    {
        self.mu_km3_s2.is_non_negative()
    }
}

impl FrameTrait for CelestialFrame {
    open spec fn spec_ephemeris_hash(&self) -> NaifId {
        self.frame.spec_ephemeris_hash()
    }

    open spec fn spec_orientation_hash(&self) -> NaifId {
        self.frame.spec_orientation_hash()
    }

    fn ephemeris_hash(&self) -> (id: NaifId) {
        self.frame.ephemeris_hash()
    }

    fn orientation_hash(&self) -> (id: NaifId) {
        self.frame.orientation_hash()
    }
}

impl CelestialFrameTrait for CelestialFrame {
    open spec fn spec_mu_km3_s2(&self) -> Scalar {
        self.mu_km3_s2
    }

    fn mu_km3_s2(&self) -> (mu: Scalar) {
        self.mu_km3_s2
    }
}

} // verus!
