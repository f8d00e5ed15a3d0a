//! Reference frames, in three layers of knowledge.
//!
//! A `Frame` is an identity and nothing else. A `CelestialFrame` is a frame
//! whose gravitational parameter is known; a `GeodeticFrame` is a celestial
//! frame whose shape and rotation rate are known too. Each layer holds the one
//! below it and answers its questions by asking it. Knowledge is added only by
//! building the richer value from the new data, and dropped only by the
//! conversion of a `GeodeticFrame` into a `Frame`.

pub mod celestial_frame;
pub mod frame;
pub mod geodetic_frame;
