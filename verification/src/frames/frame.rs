//! The identity of a reference frame.

use vstd::prelude::*;
use crate::naif::{hash_name, name_hash, NaifId};

verus! {

/// What every frame can tell: which ephemeris and which orientation it is.
pub trait FrameTrait {
    /// Identifier of the ephemeris of this frame.
    spec fn spec_ephemeris_hash(&self) -> NaifId;

    /// Identifier of the orientation of this frame.
    spec fn spec_orientation_hash(&self) -> NaifId;

    /// Identifier of the ephemeris of this frame.
    fn ephemeris_hash(&self) -> (id: NaifId)
        ensures
            id == self.spec_ephemeris_hash(),
    ;

    /// Identifier of the orientation of this frame.
    fn orientation_hash(&self) -> (id: NaifId)
        ensures
            id == self.spec_orientation_hash(),
    ;
}

/// A reference frame, known by its identity alone: the pair of the identifiers
/// of its ephemeris and of its orientation. Two frames are equal exactly when
/// both identifiers are.
#[derive(Clone, Copy, Debug, PartialEq, Eq, Structural)]
pub struct Frame {
    pub ephemeris_hash: NaifId,
    pub orientation_hash: NaifId,
}

impl Frame {
    /// The frame that the naming scheme assigns to a pair of names.
    pub open spec fn spec_from_ephemeris_orientation_names(
        ephemeris_name: Seq<char>,
        orientation_name: Seq<char>,
    ) -> Frame {
        Frame {
            ephemeris_hash: name_hash(ephemeris_name) as NaifId,
            orientation_hash: name_hash(orientation_name) as NaifId,
        }
    }

    /// The frame of the ephemeris and the orientation with the given names.
    pub fn from_ephemeris_orientation_names(ephemeris_name: &str, orientation_name: &str) -> (frame:
        Frame)
        ensures
            frame == Frame::spec_from_ephemeris_orientation_names(
                ephemeris_name@,
                orientation_name@,
            ),
    {
        Frame {
            ephemeris_hash: hash_name(ephemeris_name),
            orientation_hash: hash_name(orientation_name),
        }
    }
}

impl FrameTrait for Frame {
    open spec fn spec_ephemeris_hash(&self) -> NaifId {
        self.ephemeris_hash
    }

    open spec fn spec_orientation_hash(&self) -> NaifId {
        self.orientation_hash
    }

    fn ephemeris_hash(&self) -> (id: NaifId) {
        self.ephemeris_hash
    }

    fn orientation_hash(&self) -> (id: NaifId) {
        self.orientation_hash
    }
}

} // verus!
