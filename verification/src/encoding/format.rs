//! Which bytes encode which value.

use vstd::prelude::*;

verus! {

/// The longest value, in bytes, that a field can carry, and the longest input
/// that a reader accepts.
pub const MAX_LENGTH: usize = 0x0fff_ffff;

/// Tag of an `INTEGER` field.
pub const TAG_INTEGER: u8 = 0x02;

/// Tag of an `OCTET STRING` field.
pub const TAG_OCTET_STRING: u8 = 0x04;

/// Tag of a `UTF8String` field.
pub const TAG_UTF8_STRING: u8 = 0x0c;

/// The length octets that announce a value of `n` bytes: the length itself
/// below 128, else `0x80` plus the number of octets that follow, and the length
/// in as few octets as hold it, most significant first.
pub open spec fn length_octets(n: nat) -> Seq<u8> {
    if n < 0x80 {
        seq![n as u8]
    } else if n < 0x100 {
        seq![0x81u8, n as u8]
    } else if n < 0x1_0000 {
        seq![0x82u8, (n / 0x100) as u8, (n % 0x100) as u8]
    } else if n < 0x100_0000 {
        seq![0x83u8, (n / 0x1_0000) as u8, (n / 0x100 % 0x100) as u8, (n % 0x100) as u8]
    } else {
        seq![
            0x84u8,
            (n / 0x100_0000 % 0x100) as u8,
            (n / 0x1_0000 % 0x100) as u8,
            (n / 0x100 % 0x100) as u8,
            (n % 0x100) as u8,
        ]
    }
}

/// A field: its tag, the length of its value, and the value.
pub open spec fn field(tag: u8, value: Seq<u8>) -> Seq<u8> {
    seq![tag] + length_octets(value.len()) + value
}

/// The length of a field whose value is `n` bytes long.
pub open spec fn field_size(n: nat) -> nat {
    1 + length_octets(n).len() + n
}

/// The value octets of an integer: its two's complement representation in as
/// few octets as hold it, most significant first.
pub open spec fn integer_octets(v: int) -> Seq<u8>
    decreases (if v >= 0 { v } else { -v }),
{
    if -0x80 <= v < 0x80 {
        seq![(v % 0x100) as u8]
    } else {
        integer_octets(v / 0x100) + seq![(v % 0x100) as u8]
    }
}

/// The `INTEGER` field that encodes `v`.
pub open spec fn integer_field(v: int) -> Seq<u8> {
    field(TAG_INTEGER, integer_octets(v))
}

/// The `OCTET STRING` field that encodes `octets`.
pub open spec fn octet_string_field(octets: Seq<u8>) -> Seq<u8> {
    field(TAG_OCTET_STRING, octets)
}

/// The `UTF8String` field that encodes `text`.
pub open spec fn utf8_string_field(text: Seq<char>) -> Seq<u8> {
    field(TAG_UTF8_STRING, vstd::utf8::encode_utf8(text))
}

} // verus!
