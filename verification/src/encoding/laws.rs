//! What readers of encoded records rely on.

use vstd::prelude::*;
use crate::encoding::format::{field, integer_field, integer_octets, length_octets, utf8_string_field};

verus! {

/// A concatenation stands at the start of a byte string exactly when its first
/// part stands there and its second part stands where the first one ends.
pub proof fn lemma_prefix_concat(x: Seq<u8>, y: Seq<u8>, bytes: Seq<u8>)
    ensures
        (x + y).is_prefix_of(bytes) <==> (x.is_prefix_of(bytes) && y.is_prefix_of(
            bytes.subrange(x.len() as int, bytes.len() as int),
        )),
{
    let xy = x + y;
    if xy.is_prefix_of(bytes) {
        let rest = bytes.subrange(x.len() as int, bytes.len() as int);
        assert forall|i: int| 0 <= i < x.len() implies x[i] == bytes[i] by {
            assert(xy[i] == bytes.subrange(0, xy.len() as int)[i]);
        }
        assert(x =~= bytes.subrange(0, x.len() as int));
        assert forall|i: int| 0 <= i < y.len() implies y[i] == rest[i] by {
            assert(xy[x.len() + i] == bytes.subrange(0, xy.len() as int)[x.len() + i]);
        }
        assert(y =~= rest.subrange(0, y.len() as int));
    }
    if x.is_prefix_of(bytes) && y.is_prefix_of(bytes.subrange(x.len() as int, bytes.len() as int)) {
        let rest = bytes.subrange(x.len() as int, bytes.len() as int);
        assert forall|i: int| 0 <= i < xy.len() implies xy[i] == bytes[i] by {
            if i < x.len() {
                assert(x[i] == bytes.subrange(0, x.len() as int)[i]);
            } else {
                assert(y[i - x.len()] == rest.subrange(0, y.len() as int)[i - x.len()]);
            }
        }
        assert(xy =~= bytes.subrange(0, xy.len() as int));
    }
}

/// Length octets are one to five bytes long.
pub proof fn lemma_length_octets_len(n: nat)
    ensures
        1 <= length_octets(n).len() <= 5,
        n < 0x80 ==> length_octets(n).len() == 1,
{
}

/// The length octets at the start of a byte string announce one length only.
pub proof fn lemma_length_octets_determined(a: nat, b: nat, bytes: Seq<u8>)
    requires
        a <= u32::MAX,
        b <= u32::MAX,
        length_octets(a).is_prefix_of(bytes),
        length_octets(b).is_prefix_of(bytes),
    ensures
        a == b,
{
    let la = length_octets(a);
    let lb = length_octets(b);
    assert(la[0] == bytes[0] && lb[0] == bytes[0]);
    if a < 0x80 {
    } else if a < 0x100 {
        assert(la[1] == bytes[1] && lb[1] == bytes[1]);
    } else if a < 0x1_0000 {
        assert(la[1] == bytes[1] && lb[1] == bytes[1]);
        assert(la[2] == bytes[2] && lb[2] == bytes[2]);
    } else if a < 0x100_0000 {
        assert(la[1] == bytes[1] && lb[1] == bytes[1]);
        assert(la[2] == bytes[2] && lb[2] == bytes[2]);
        assert(la[3] == bytes[3] && lb[3] == bytes[3]);
    } else {
        assert(la[1] == bytes[1] && lb[1] == bytes[1]);
        assert(la[2] == bytes[2] && lb[2] == bytes[2]);
        assert(la[3] == bytes[3] && lb[3] == bytes[3]);
        assert(la[4] == bytes[4] && lb[4] == bytes[4]);
    }
}

/// A byte string begins with at most one field: two fields that both stand at
/// its start have the same tag and the same value.
pub proof fn lemma_field_determined(t1: u8, v1: Seq<u8>, t2: u8, v2: Seq<u8>, bytes: Seq<u8>)
    requires
        bytes.len() <= u32::MAX,
        field(t1, v1).is_prefix_of(bytes),
        field(t2, v2).is_prefix_of(bytes),
    ensures
        t1 == t2,
        v1 == v2,
{
    let f1 = field(t1, v1);
    let f2 = field(t2, v2);
    let l1 = length_octets(v1.len());
    let l2 = length_octets(v2.len());
    lemma_length_octets_len(v1.len());
    lemma_length_octets_len(v2.len());
    assert(f1[0] == bytes[0] && f2[0] == bytes[0]);
    let rest = bytes.subrange(1, bytes.len() as int);
    assert(l1.is_prefix_of(rest)) by {
        assert forall|i: int| 0 <= i < l1.len() implies l1[i] == rest[i] by {
            assert(f1[1 + i] == bytes[1 + i]);
        }
    }
    assert(l2.is_prefix_of(rest)) by {
        assert forall|i: int| 0 <= i < l2.len() implies l2[i] == rest[i] by {
            assert(f2[1 + i] == bytes[1 + i]);
        }
    }
    lemma_length_octets_determined(v1.len(), v2.len(), rest);
    let k = 1 + l1.len();
    assert forall|i: int| 0 <= i < v1.len() implies v1[i] == v2[i] by {
        assert(f1[k + i] == bytes[k + i]);
        assert(f2[k + i] == bytes[k + i]);
    }
    assert(v1 =~= v2);
}

/// The integer that value octets stand for, read as two's complement.
pub open spec fn integer_of_octets(octets: Seq<u8>) -> int
    decreases octets.len(),
{
    if octets.len() == 0 {
        0
    } else if octets.len() == 1 {
        if octets[0] < 0x80 {
            octets[0] as int
        } else {
            octets[0] as int - 0x100
        }
    } else {
        integer_of_octets(octets.drop_last()) * 0x100 + octets.last() as int
    }
}

/// The value octets of an integer stand for that integer.
pub proof fn lemma_integer_octets_value(v: int)
    ensures
        integer_octets(v).len() >= 1,
        integer_of_octets(integer_octets(v)) == v,
    decreases (if v >= 0 { v } else { -v }),
{
    if -0x80 <= v < 0x80 {
    } else {
        lemma_integer_octets_value(v / 0x100);
        let high = integer_octets(v / 0x100);
        let all = integer_octets(v);
        assert(all.drop_last() =~= high);
        assert(all.last() == (v % 0x100) as u8);
    }
}

/// Two integers with the same value octets are equal.
pub proof fn lemma_integer_octets_injective(a: int, b: int)
    requires
        integer_octets(a) == integer_octets(b),
    ensures
        a == b,
{
    lemma_integer_octets_value(a);
    lemma_integer_octets_value(b);
}

/// A byte string begins with the encoding of at most one integer.
pub proof fn lemma_integer_field_determined(a: int, b: int, bytes: Seq<u8>)
    requires
        bytes.len() <= u32::MAX,
        integer_field(a).is_prefix_of(bytes),
        integer_field(b).is_prefix_of(bytes),
    ensures
        a == b,
{
    lemma_field_determined(
        crate::encoding::format::TAG_INTEGER,
        integer_octets(a),
        crate::encoding::format::TAG_INTEGER,
        integer_octets(b),
        bytes,
    );
    lemma_integer_octets_injective(a, b);
}

/// A byte string begins with the encoding of at most one text.
pub proof fn lemma_utf8_string_field_determined(a: Seq<char>, b: Seq<char>, bytes: Seq<u8>)
    requires
        bytes.len() <= u32::MAX,
        utf8_string_field(a).is_prefix_of(bytes),
        utf8_string_field(b).is_prefix_of(bytes),
    ensures
        a == b,
{
    lemma_field_determined(
        crate::encoding::format::TAG_UTF8_STRING,
        vstd::utf8::encode_utf8(a),
        crate::encoding::format::TAG_UTF8_STRING,
        vstd::utf8::encode_utf8(b),
        bytes,
    );
    vstd::utf8::encode_utf8_decode_utf8(a);
    vstd::utf8::encode_utf8_decode_utf8(b);
}

} // verus!
