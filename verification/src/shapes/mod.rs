//! The shapes of celestial bodies.

pub mod ellipsoid;
