//! Identifiers of bodies and reference frames, and the scheme that derives them
//! from names.

use vstd::prelude::*;

verus! {

/// Identifies a body or a reference frame. Two identifiers denote the same
/// object exactly when they are equal; their numeric value carries no meaning.
pub type NaifId = i32;

/// Modulus of the name hash: identifiers derived from names are non-negative.
pub const HASH_MODULUS: u64 = 0x8000_0000;

/// Multiplier of the name hash.
pub const HASH_MULTIPLIER: u64 = 31;

/// The hash of a name given as its UTF-8 bytes: the bytes are read as the
/// coefficients of a polynomial in `HASH_MULTIPLIER`, first byte first, and the
/// polynomial is reduced modulo `HASH_MODULUS`.
pub open spec fn hash_bytes(bytes: Seq<u8>) -> int
    decreases bytes.len(),
{
    if bytes.len() == 0 {
        0
    } else {
        (hash_bytes(bytes.drop_last()) * (HASH_MULTIPLIER as int) + (bytes.last() as int)) % (
        HASH_MODULUS as int)
    }
}

/// The identifier that the naming scheme assigns to `name`.
pub open spec fn name_hash(name: Seq<char>) -> int {
    hash_bytes(vstd::utf8::encode_utf8(name))
}

/// The hash of any byte string lies in `0 .. HASH_MODULUS`.
pub proof fn lemma_hash_bytes_range(bytes: Seq<u8>)
    ensures
        0 <= hash_bytes(bytes) < HASH_MODULUS,
    decreases bytes.len(),
{
    if bytes.len() > 0 {
        lemma_hash_bytes_range(bytes.drop_last());
    }
}

/// Computes the identifier of `name`. The result depends on the name alone, so
/// it is the same in every run and on every machine.
pub fn hash_name(name: &str) -> (id: NaifId)
    ensures
        id == name_hash(name@),
        0 <= id,
{
    let bytes = name.as_bytes();
    let mut acc: u64 = 0;
    let mut i: usize = 0;
    while i < bytes.len()
        invariant
            i <= bytes.len(),
            bytes@ == vstd::utf8::encode_utf8(name@),
            acc == hash_bytes(bytes@.subrange(0, i as int)),
            acc < HASH_MODULUS,
        decreases bytes.len() - i,
    {
        proof {
            let next = bytes@.subrange(0, i + 1);
            assert(next.drop_last() == bytes@.subrange(0, i as int));
            assert(next.last() == bytes@[i as int]);
        }
        acc = (acc * HASH_MULTIPLIER + bytes[i] as u64) % HASH_MODULUS;
        i = i + 1;
    }
    assert(bytes@.subrange(0, i as int) == bytes@);
    acc as i32
}

} // verus!
