//! The names that most users of the crate need.

pub use crate::context::{Context, PlanetaryConstants};
pub use crate::errors::AniseError;
pub use crate::frames::celestial_frame::{CelestialFrame, CelestialFrameTrait};
pub use crate::frames::frame::{Frame, FrameTrait};
pub use crate::frames::geodetic_frame::{GeodeticFrame, GeodeticFrameTrait};
pub use crate::naif::NaifId;
pub use crate::scalar::Scalar;
pub use crate::shapes::ellipsoid::Ellipsoid;
pub use crate::structure::epoch::{Epoch, TimeScale};
pub use crate::structure::metadata::Metadata;
pub use crate::structure::semver::Semver;
