//! Frames with a known shape and rotation rate.

use vstd::prelude::*;
use vstd::std_specs::convert::{FromSpec, FromSpecImpl};
use vstd::string::StringExecFns;
use crate::context::{Context, PlanetaryConstants};
use crate::errors::AniseError;
use crate::frames::celestial_frame::{CelestialFrame, CelestialFrameTrait};
use crate::frames::frame::{Frame, FrameTrait};
use crate::naif::NaifId;
use crate::scalar::Scalar;
use crate::shapes::ellipsoid::Ellipsoid;

verus! {

/// What a frame can tell once the shape and the rotation rate of its central
/// body are known.
pub trait GeodeticFrameTrait: CelestialFrameTrait {
    /// Mean equatorial radius, in kilometers.
    spec fn spec_mean_equatorial_radius_km(&self) -> Scalar;

    /// Semi-major radius, in kilometers.
    spec fn spec_semi_major_radius_km(&self) -> Scalar;

    /// Flattening, without unit.
    spec fn spec_flattening(&self) -> Scalar;

    /// Mean angular velocity, in degrees per second.
    spec fn spec_angular_velocity_deg_s(&self) -> Scalar;

    /// Mean equatorial radius, in kilometers.
    fn mean_equatorial_radius_km(&self) -> (radius: Scalar)
        ensures
            radius == self.spec_mean_equatorial_radius_km(),
    ;

    /// Semi-major radius, in kilometers.
    fn semi_major_radius_km(&self) -> (radius: Scalar)
        ensures
            radius == self.spec_semi_major_radius_km(),
    ;

    /// Flattening, without unit.
    fn flattening(&self) -> (flattening: Scalar)
        ensures
            flattening == self.spec_flattening(),
    ;

    /// Mean angular velocity, in degrees per second.
    fn angular_velocity_deg_s(&self) -> (rate: Scalar)
        ensures
            rate == self.spec_angular_velocity_deg_s(),
    ;
}

/// A celestial frame, the shape of its central body and the rate at which the
/// body rotates.
#[derive(Clone, Copy, Debug, PartialEq, Eq, Structural)]
pub struct GeodeticFrame {
    pub celestial_frame: CelestialFrame,
    pub shape: Ellipsoid,
    /// Mean angular velocity, in degrees per second; its sign tells the
    /// direction of the rotation.
    pub angular_velocity_deg: Scalar,
}

impl FrameTrait for GeodeticFrame {
    open spec fn spec_ephemeris_hash(&self) -> NaifId {
        self.celestial_frame.spec_ephemeris_hash()
    }

    open spec fn spec_orientation_hash(&self) -> NaifId {
        self.celestial_frame.spec_orientation_hash()
    }

    fn ephemeris_hash(&self) -> (id: NaifId) {
        self.celestial_frame.ephemeris_hash()
    }

    fn orientation_hash(&self) -> (id: NaifId) {
        self.celestial_frame.orientation_hash()
    }
}

impl CelestialFrameTrait for GeodeticFrame {
    open spec fn spec_mu_km3_s2(&self) -> Scalar {
        self.celestial_frame.spec_mu_km3_s2()
    }

    fn mu_km3_s2(&self) -> (mu: Scalar) {
        self.celestial_frame.mu_km3_s2()
    }
}

impl GeodeticFrameTrait for GeodeticFrame {
    open spec fn spec_mean_equatorial_radius_km(&self) -> Scalar {
        self.shape.mean_equatorial_radius_km()
    }

    open spec fn spec_semi_major_radius_km(&self) -> Scalar {
        self.shape.semi_major_equatorial_radius_km
    }

    open spec fn spec_flattening(&self) -> Scalar {
        self.shape.flattening()
    }

    open spec fn spec_angular_velocity_deg_s(&self) -> Scalar {
        self.angular_velocity_deg
    }

    fn mean_equatorial_radius_km(&self) -> (radius: Scalar) {
        self.shape.mean_equatorial_radius_km()
    }

    fn semi_major_radius_km(&self) -> (radius: Scalar) {
        self.shape.semi_major_equatorial_radius_km
    }

    fn flattening(&self) -> (flattening: Scalar) {
        self.shape.flattening()
    }

    fn angular_velocity_deg_s(&self) -> (rate: Scalar) {
        self.angular_velocity_deg
    }
}

impl From<GeodeticFrame> for Frame {
    /// Narrows a geodetic frame to its identity. The gravitational parameter,
    /// the shape and the rotation rate are lost: no conversion leads back, and
    /// whoever needs them again resolves the frame anew.
    fn from(frame: GeodeticFrame) -> (identity: Frame) {
        frame.celestial_frame.frame
    }
}

impl FromSpecImpl<GeodeticFrame> for Frame {
    open spec fn obeys_from_spec() -> bool {
        true
    }

    open spec fn from_spec(frame: GeodeticFrame) -> Frame {
        frame.celestial_frame.frame
    }
}

impl GeodeticFrame {
    /// Narrowing keeps the identity: the frame that a geodetic frame converts
    /// into is the frame that it was built on, with both identifiers as they
    /// were.
    pub proof fn lemma_narrowing_keeps_identity(self)
        ensures
            <Frame as FromSpec<GeodeticFrame>>::obeys_from_spec(),
            <Frame as FromSpec<GeodeticFrame>>::from_spec(self) == self.celestial_frame.frame,
            <Frame as FromSpec<GeodeticFrame>>::from_spec(self).ephemeris_hash
                == self.spec_ephemeris_hash(),
            <Frame as FromSpec<GeodeticFrame>>::from_spec(self).orientation_hash
                == self.spec_orientation_hash(),
    {
    }

    /// Delegation: a geodetic frame answers every question of a narrower layer
    /// with the answer of the value that it holds for that layer.
    pub proof fn lemma_capabilities_delegate(self)
        ensures
            self.spec_ephemeris_hash() == self.celestial_frame.spec_ephemeris_hash(),
            self.spec_orientation_hash() == self.celestial_frame.spec_orientation_hash(),
            self.spec_mu_km3_s2() == self.celestial_frame.spec_mu_km3_s2(),
            self.spec_mean_equatorial_radius_km() == self.shape.mean_equatorial_radius_km(),
            self.spec_semi_major_radius_km() == self.shape.semi_major_equatorial_radius_km,
            self.spec_flattening() == self.shape.flattening(),
            self.spec_angular_velocity_deg_s() == self.angular_velocity_deg,
    {
    }
}

impl GeodeticFrame {
    /// Tells whether the frame is one of a body: its celestial frame and its
    /// shape are valid. The rotation rate may have either sign.
    pub open spec fn spec_is_valid(&self) -> bool {
        self.celestial_frame.is_valid() && self.shape.is_valid()
    }

    /// Tells whether the frame is one of a body: its celestial frame and its
    /// shape are valid. The rotation rate may have either sign.
    #[verifier::when_used_as_spec(spec_is_valid)]
    pub fn is_valid(&self) -> (valid: bool)
        ensures
            valid == self.spec_is_valid(),
    {
        self.celestial_frame.is_valid() && self.shape.is_valid()
    }

    /// A frame that is resolved from a valid record is valid.
    pub proof fn lemma_from_constants_valid(
        ephemeris_name: Seq<char>,
        orientation_name: Seq<char>,
        constants: PlanetaryConstants,
        shape: Ellipsoid,
    )
        requires
            constants.is_valid(),
            constants.shape == Some(shape),
        ensures
            GeodeticFrame::from_constants(
                ephemeris_name,
                orientation_name,
                constants,
                shape,
            ).is_valid(),
    {
    }

    /// The geodetic frame of the ephemeris and the orientation with the given
    /// names, with the gravitational parameter and the rotation rate of
    /// `constants` and with the shape `shape`.
    pub open spec fn from_constants(
        ephemeris_name: Seq<char>,
        orientation_name: Seq<char>,
        constants: PlanetaryConstants,
        shape: Ellipsoid,
    ) -> GeodeticFrame {
        GeodeticFrame {
            celestial_frame: CelestialFrame {
                frame: Frame::spec_from_ephemeris_orientation_names(
                    ephemeris_name,
                    orientation_name,
                ),
                mu_km3_s2: constants.mu_km3_s2,
            },
            shape,
            angular_velocity_deg: constants.angular_velocity_deg,
        }
    }
}

impl Context {
    /// Resolves the geodetic frame of the ephemeris and the orientation with
    /// the given names, with the constants that are registered under the name
    /// of the ephemeris. To take the constants from a record of another name,
    /// use `geodetic_frame_from`.
    pub fn geodetic_frame(&self, ephemeris_name: &str, orientation_name: &str) -> (r: Result<
        GeodeticFrame,
        AniseError,
    >)
        ensures
            match r {
                Ok(frame) => {
                    &&& self@.dom().contains(ephemeris_name@)
                    &&& self@[ephemeris_name@].shape matches Some(shape)
                    &&& frame == GeodeticFrame::from_constants(
                        ephemeris_name@,
                        orientation_name@,
                        self@[ephemeris_name@],
                        shape,
                    )
                },
                Err(AniseError::NotFound { name }) => {
                    &&& !self@.dom().contains(ephemeris_name@)
                    &&& name@ == ephemeris_name@
                },
                Err(AniseError::ParameterNotSpecified { name, parameter }) => {
                    &&& self@.dom().contains(ephemeris_name@)
                    &&& self@[ephemeris_name@].shape is None
                    &&& name@ == ephemeris_name@
                    &&& parameter@ == "shape"@
                },
                Err(_) => false,
            },
    {
        self.geodetic_frame_from(ephemeris_name, orientation_name, ephemeris_name)
    }

    /// Resolves the geodetic frame of the ephemeris and the orientation with
    /// the given names, with the constants that are registered under
    /// `planetary_constants_name`. The identity of the frame comes from the
    /// first two names, its gravitational parameter, shape and rotation rate
    /// from the record. Fails with `NotFound` where no record has that name,
    /// and with `ParameterNotSpecified` where the record has no shape; either
    /// error names `planetary_constants_name`.
    pub fn geodetic_frame_from(
        &self,
        ephemeris_name: &str,
        orientation_name: &str,
        planetary_constants_name: &str,
    ) -> (r: Result<GeodeticFrame, AniseError>)
        ensures
            match r {
                Ok(frame) => {
                    &&& self@.dom().contains(planetary_constants_name@)
                    &&& self@[planetary_constants_name@].shape matches Some(shape)
                    &&& frame == GeodeticFrame::from_constants(
                        ephemeris_name@,
                        orientation_name@,
                        self@[planetary_constants_name@],
                        shape,
                    )
                },
                Err(AniseError::NotFound { name }) => {
                    &&& !self@.dom().contains(planetary_constants_name@)
                    &&& name@ == planetary_constants_name@
                },
                Err(AniseError::ParameterNotSpecified { name, parameter }) => {
                    &&& self@.dom().contains(planetary_constants_name@)
                    &&& self@[planetary_constants_name@].shape is None
                    &&& name@ == planetary_constants_name@
                    &&& parameter@ == "shape"@
                },
                Err(_) => false,
            },
    {
        let constants = match self.planetary_constants_from_name(planetary_constants_name) {
            Ok(constants) => constants,
            Err(e) => {
                return Err(e);
            },
        };
        match constants.shape {
            Some(shape) => Ok(
                GeodeticFrame {
                    celestial_frame: CelestialFrame {
                        frame: Frame::from_ephemeris_orientation_names(
                            ephemeris_name,
                            orientation_name,
                        ),
                        mu_km3_s2: constants.mu_km3_s2,
                    },
                    shape,
                    angular_velocity_deg: constants.angular_velocity_deg,
                },
            ),
            None => Err(
                AniseError::ParameterNotSpecified {
                    name: String::from_str(planetary_constants_name),
                    parameter: String::from_str("shape"),
                },
            ),
        }
    }
}

} // verus!
