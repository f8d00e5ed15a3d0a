//! Ellipsoids of revolution.

use vstd::prelude::*;
use crate::scalar::Scalar;

verus! {

/// The shape of a body, as the quantities that describe it to the users of a
/// frame. The geometry that relates them to each other is not this crate's
/// business: the quantities are taken as they are given.
#[derive(Clone, Copy, Debug, PartialEq, Eq, Structural)]
pub struct Ellipsoid {
    /// Semi-major equatorial radius, in kilometers.
    pub semi_major_equatorial_radius_km: Scalar,
    /// Mean equatorial radius, in kilometers.
    pub mean_equatorial_radius_km: Scalar,
    /// Flattening, without unit.
    pub flattening: Scalar,
}

impl Ellipsoid {
    /// Tells whether the shape is one of a body: both radii are positive.
    pub open spec fn spec_is_valid(&self) -> bool {
        &&& self.semi_major_equatorial_radius_km.is_positive()
        &&& self.mean_equatorial_radius_km.is_positive()
    }

    /// Tells whether the shape is one of a body: both radii are positive.
    #[verifier::when_used_as_spec(spec_is_valid)]
    pub fn is_valid(&self) -> (valid: bool)
        ensures
            valid == self.spec_is_valid(),
    {
        self.semi_major_equatorial_radius_km.is_positive()
            && self.mean_equatorial_radius_km.is_positive()
    }

    /// Mean equatorial radius, in kilometers.
    pub open spec fn spec_mean_equatorial_radius_km(&self) -> Scalar {
        self.mean_equatorial_radius_km
    }

    /// Mean equatorial radius, in kilometers.
    #[verifier::when_used_as_spec(spec_mean_equatorial_radius_km)]
    pub fn mean_equatorial_radius_km(&self) -> (radius: Scalar)
        ensures
            radius == self.mean_equatorial_radius_km,
    {
        self.mean_equatorial_radius_km
    }

    /// Flattening, without unit.
    pub open spec fn spec_flattening(&self) -> Scalar {
        self.flattening
    }

    /// Flattening, without unit.
    #[verifier::when_used_as_spec(spec_flattening)]
    pub fn flattening(&self) -> (flattening: Scalar)
        ensures
            flattening == self.flattening,
    {
        self.flattening
    }
}

} // verus!
