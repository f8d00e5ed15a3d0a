//! Celestial reference frames and the versioned metadata header of ANISE data files.
//!
//! The crate is laid out in three parts. The frame model (`frames`, `shapes`,
//! `context`) describes a reference frame by its identity and, layer by layer, by
//! the physical constants known for it. The header (`structure`) is the record
//! that opens every data file; `encoding` states the byte-level format that the
//! header is written in.
//!
//! Two crates are called and not verified: `der`, the DER codec, in
//! `encoding::codec`, and `hifitime`, for the system clock and for dates in
//! words, in `structure::epoch`. What is taken on trust of them is stated there.

pub mod context;
pub mod encoding;
pub mod errors;
pub mod frames;
pub mod naif;
pub mod prelude;
pub mod scalar;
pub mod shapes;
pub mod structure;
pub mod text;
