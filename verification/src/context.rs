//! The store of physical constants.

use vstd::prelude::*;
use vstd::string::StringExecFns;
use crate::errors::AniseError;
use crate::naif::{hash_name, name_hash, NaifId};
use crate::scalar::Scalar;
use crate::shapes::ellipsoid::Ellipsoid;
use crate::text::same_text;

verus! {

/// What is known of a body: its gravitational parameter, its rotation rate,
/// and its shape where one is on record.
#[derive(Clone, Copy, Debug, PartialEq, Eq, Structural)]
pub struct PlanetaryConstants {
    /// Gravitational parameter, in km³/s².
    pub mu_km3_s2: Scalar,
    /// The shape of the body, if it is known.
    pub shape: Option<Ellipsoid>,
    /// Mean angular velocity, in degrees per second.
    pub angular_velocity_deg: Scalar,
}

impl PlanetaryConstants {
    /// Tells whether the record is one of a body: its gravitational parameter
    /// is not negative, and its shape, where it has one, is valid.
    pub open spec fn spec_is_valid(&self) -> bool {
        &&& self.mu_km3_s2.is_non_negative()
        &&& self.shape matches Some(shape) ==> shape.is_valid()
    }

    /// Tells whether the record is one of a body: its gravitational parameter
    /// is not negative, and its shape, where it has one, is valid.
    #[verifier::when_used_as_spec(spec_is_valid)]
    pub fn is_valid(&self) -> (valid: bool)
        ensures
            valid == self.spec_is_valid(),
    {
        self.mu_km3_s2.is_non_negative() && match self.shape {
            Some(shape) => shape.is_valid(),
            None => true,
        }
    }
}

/// Tells whether no two names of a mapping have the same identifier.
pub open spec fn identifiers_distinct(store: Map<Seq<char>, PlanetaryConstants>) -> bool {
    forall|a: Seq<char>, b: Seq<char>|
        store.dom().contains(a) && store.dom().contains(b) && name_hash(a) == name_hash(b) ==> a
            == b
}

/// One entry of the store.
struct Record {
    name: String,
    id: NaifId,
    constants: PlanetaryConstants,
}

/// The store of physical constants: a mapping from names to records. Names
/// are taken as they are written. Each name of the store has the identifier
/// that the naming scheme assigns to it, and no two names of the store share
/// an identifier.
pub struct Context {
    records: Vec<Record>,
}

impl View for Context {
    type V = Map<Seq<char>, PlanetaryConstants>;

    closed spec fn view(&self) -> Map<Seq<char>, PlanetaryConstants> {
        Map::new(
            |name: Seq<char>| self.position_of(name) is Some,
            |name: Seq<char>| self.records[self.position_of(name).unwrap()].constants,
        )
    }
}

impl Context {
    #[verifier::type_invariant]
    spec fn well_formed(self) -> bool {
        &&& forall|i: int|
            0 <= i < self.records.len() ==> (#[trigger] self.records[i]).id == name_hash(
                self.records[i].name@,
            )
        &&& forall|i: int, j: int|
            0 <= i < j < self.records.len() ==> (#[trigger] self.records[i]).id != (
            #[trigger] self.records[j]).id
    }

    /// Where the record of `name` stands in the store, if it has one.
    spec fn position_of(self, name: Seq<char>) -> Option<int> {
        if exists|i: int| 0 <= i < self.records.len() && (#[trigger] self.records[i]).name@ == name {
            Some(
                choose|i: int|
                    0 <= i < self.records.len() && (#[trigger] self.records[i]).name@ == name,
            )
        } else {
            None
        }
    }

    /// In a well-formed store a name stands at one place only.
    proof fn lemma_position(self, name: Seq<char>, i: int)
        requires
            self.well_formed(),
            0 <= i < self.records.len(),
            self.records[i].name@ == name,
        ensures
            self.position_of(name) == Some(i),
    {
        let k = self.position_of(name).unwrap();
        assert(self.records[k].id == self.records[i].id);
    }

    /// No two names of a well-formed store share an identifier.
    proof fn lemma_identifiers_distinct(self)
        requires
            self.well_formed(),
        ensures
            identifiers_distinct(self@),
    {
        assert forall|a: Seq<char>, b: Seq<char>|
            self@.dom().contains(a) && self@.dom().contains(b) && name_hash(a) == name_hash(
                b,
            ) implies a == b by {
            let i = self.position_of(a).unwrap();
            let j = self.position_of(b).unwrap();
            assert(self.records[i].id == self.records[j].id);
        }
    }

    /// The empty store.
    pub fn new() -> (store: Context)
        ensures
            store@ == Map::<Seq<char>, PlanetaryConstants>::empty(),
            identifiers_distinct(store@),
    {
        let store = Context { records: Vec::new() };
        assert(store@ =~= Map::<Seq<char>, PlanetaryConstants>::empty());
        store
    }

    /// Registers `constants` under `name`. A name whose identifier is already
    /// that of a name in the store is rejected with `HashCollision`, and the
    /// store stays as it was: nothing is overwritten, neither the record of the
    /// same name nor the identity of another one.
    pub fn register(&mut self, name: &str, constants: PlanetaryConstants) -> (r: Result<
        (),
        AniseError,
    >)
        ensures
            identifiers_distinct(final(self)@),
            match r {
                Ok(()) => {
                    &&& final(self)@ == old(self)@.insert(name@, constants)
                    &&& forall|other: Seq<char>| #[trigger]
                        old(self)@.dom().contains(other) ==> name_hash(other) != name_hash(name@)
                },
                Err(AniseError::HashCollision { name: rejected, registered }) => {
                    &&& final(self)@ == old(self)@
                    &&& rejected@ == name@
                    &&& old(self)@.dom().contains(registered@)
                    &&& name_hash(registered@) == name_hash(name@)
                },
                Err(_) => false,
            },
    {
        proof {
            use_type_invariant(&*self);
        }
        let id = hash_name(name);
        let mut i: usize = 0;
        while i < self.records.len()
            invariant
                i <= self.records.len(),
                self == old(self),
                self.well_formed(),
                id == name_hash(name@),
                forall|j: int| 0 <= j < i ==> (#[trigger] self.records[j]).id != id,
            decreases self.records.len() - i,
        {
            if self.records[i].id == id {
                proof {
                    self.lemma_position(self.records[i as int].name@, i as int);
                    self.lemma_identifiers_distinct();
                }
                return Err(
                    AniseError::HashCollision {
                        name: String::from_str(name),
                        registered: self.records[i].name.clone(),
                    },
                );
            }
            i = i + 1;
        }
        let ghost before = *self;
        let mut records: Vec<Record> = Vec::new();
        core::mem::swap(&mut self.records, &mut records);
        records.push(Record { name: String::from_str(name), id, constants });
        self.records = records;
        proof {
            let after = *self;
            let last = before.records.len() as int;
            assert(after.well_formed());
            assert forall|other: Seq<char>| #[trigger]
                before@.dom().contains(other) implies name_hash(other) != name_hash(name@) by {
                let k = before.position_of(other).unwrap();
                assert(before.records[k].id != id);
            }
            assert forall|key: Seq<char>|
                after@.dom().contains(key) == before@.insert(name@, constants).dom().contains(
                    key,
                ) by {
                if key == name@ {
                    after.lemma_position(key, last);
                }
                if before.position_of(key) is Some {
                    let k = before.position_of(key).unwrap();
                    assert(after.records[k] == before.records[k]);
                    after.lemma_position(key, k);
                }
                if after.position_of(key) is Some {
                    let k = after.position_of(key).unwrap();
                    if k < last {
                        assert(after.records[k] == before.records[k]);
                        before.lemma_position(key, k);
                    }
                }
            }
            assert forall|key: Seq<char>| #[trigger]
                after@.dom().contains(key) implies after@[key] == before@.insert(
                name@,
                constants,
            )[key] by {
                let k = after.position_of(key).unwrap();
                if k < last {
                    assert(after.records[k] == before.records[k]);
                    before.lemma_position(key, k);
                } else {
                    after.lemma_position(name@, last);
                }
            }
            assert(after@ =~= before@.insert(name@, constants));
            after.lemma_identifiers_distinct();
        }
        Ok(())
    }

    /// The record registered under `name`: the one whose name is `name`,
    /// character for character. Fails with `NotFound`, which names `name`,
    /// where there is none.
    pub fn planetary_constants_from_name(&self, name: &str) -> (r: Result<
        PlanetaryConstants,
        AniseError,
    >)
        ensures
            match r {
                Ok(constants) => self@.dom().contains(name@) && constants == self@[name@],
                Err(AniseError::NotFound { name: missing }) => {
                    &&& !self@.dom().contains(name@)
                    &&& missing@ == name@
                },
                Err(_) => false,
            },
    {
        proof {
            use_type_invariant(self);
        }
        let mut i: usize = 0;
        while i < self.records.len()
            invariant
                i <= self.records.len(),
                self.well_formed(),
                forall|j: int| 0 <= j < i ==> (#[trigger] self.records[j]).name@ != name@,
            decreases self.records.len() - i,
        {
            if same_text(self.records[i].name.as_str(), name) {
                proof {
                    self.lemma_position(name@, i as int);
                }
                return Ok(self.records[i].constants);
            }
            i = i + 1;
        }
        Err(AniseError::NotFound { name: String::from_str(name) })
    }
}

} // verus!
