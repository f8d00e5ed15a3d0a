//! The records that a data file is made of.

pub mod epoch;
pub mod metadata;
pub mod semver;
