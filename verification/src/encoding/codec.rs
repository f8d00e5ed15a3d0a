//! The calls into the DER codec.
//!
//! Verus does not read the codec. Each function below makes one call into it
//! and states, over the definitions of `format`, what the codec's source shows
//! of that call. What this crate says of encoded records is proved from these
//! statements.

use vstd::prelude::*;
use crate::encoding::format::{
    integer_field, octet_string_field, utf8_string_field, MAX_LENGTH,
};

verus! {

/// The error type of the DER codec, `der::Error`. The crate hands it through
/// and never looks inside.
#[verifier::external_type_specification]
#[verifier::external_body]
pub struct ExDerError(der::Error);

/// Encodes `v` with `der::Encode::to_vec`, as the codec implements it for
/// `i128`. The codec writes the `INTEGER` tag, the length, and the two's
/// complement of `v` without redundant leading octets; for a value of at most
/// sixteen octets none of its steps can fail.
#[verifier::external_body]
pub(crate) fn encode_integer(v: i128) -> (r: Result<Vec<u8>, der::Error>)
    ensures
        match r {
            Ok(bytes) => bytes@ == integer_field(v as int),
            Err(_) => false,
        },
{
    der::Encode::to_vec(&v)
}

/// Reads one `INTEGER` from the start of `bytes` with `der::Reader::decode`, as
/// the codec implements it for `i128` on a `der::SliceReader`, and returns the
/// value with the number of bytes read. The codec accepts the canonical
/// encoding of each `i128` and nothing else: it rejects another tag, a length
/// not in its shortest form, a value that runs past the input, redundant
/// leading octets, and a value of more than sixteen octets. It also rejects any
/// input longer than `MAX_LENGTH`.
#[verifier::external_body]
pub(crate) fn decode_integer(bytes: &[u8]) -> (r: Result<(i128, usize), der::Error>)
    ensures
        match r {
            Ok((v, n)) => {
                &&& bytes@.len() <= MAX_LENGTH
                &&& integer_field(v as int).is_prefix_of(bytes@)
                &&& n == integer_field(v as int).len()
            },
            Err(_) => {
                ||| bytes@.len() > MAX_LENGTH
                ||| forall|v: int|
                    i128::MIN <= v <= i128::MAX ==> !(#[trigger] integer_field(v)).is_prefix_of(
                        bytes@,
                    )
            },
        },
{
    let mut reader = der::SliceReader::new(bytes)?;
    let v: i128 = der::Reader::decode(&mut reader)?;
    let n = usize::try_from(der::Reader::position(&reader))?;
    Ok((v, n))
}

/// Encodes `octets` with `der::Encode::to_vec` of `der::asn1::OctetStringRef`.
/// The codec writes the `OCTET STRING` tag, the length, and the octets as they
/// are; it fails when the whole field would be longer than `MAX_LENGTH`, and
/// only then.
#[verifier::external_body]
pub(crate) fn encode_octet_string(octets: &[u8]) -> (r: Result<Vec<u8>, der::Error>)
    ensures
        match r {
            Ok(bytes) => {
                &&& bytes@ == octet_string_field(octets@)
                &&& bytes@.len() <= MAX_LENGTH
            },
            Err(_) => octet_string_field(octets@).len() > MAX_LENGTH,
        },
{
    der::Encode::to_vec(&der::asn1::OctetStringRef::new(octets)?)
}

/// Reads one `OCTET STRING` from the start of `bytes` with
/// `der::Reader::decode` of `der::asn1::OctetStringRef` on a
/// `der::SliceReader`, and returns its octets, borrowed from `bytes`, with the
/// number of bytes read. The codec accepts a field with that tag, a length in
/// its shortest form and a value that lies within the input; it rejects any
/// input longer than `MAX_LENGTH`.
#[verifier::external_body]
pub(crate) fn decode_octet_string<'a>(bytes: &'a [u8]) -> (r: Result<
    (&'a [u8], usize),
    der::Error,
>)
    ensures
        match r {
            Ok((octets, n)) => {
                &&& bytes@.len() <= MAX_LENGTH
                &&& octet_string_field(octets@).is_prefix_of(bytes@)
                &&& n == octet_string_field(octets@).len()
            },
            Err(_) => {
                ||| bytes@.len() > MAX_LENGTH
                ||| forall|octets: Seq<u8>| !(#[trigger] octet_string_field(octets)).is_prefix_of(
                    bytes@,
                )
            },
        },
{
    let mut reader = der::SliceReader::new(bytes)?;
    let field: der::asn1::OctetStringRef<'a> = der::Reader::decode(&mut reader)?;
    let n = usize::try_from(der::Reader::position(&reader))?;
    Ok((field.as_bytes(), n))
}

/// Encodes `text` with `der::Encode::to_vec` of `der::asn1::Utf8StringRef`. The
/// codec writes the `UTF8String` tag, the length in bytes, and the UTF-8 bytes
/// of the text; it fails when the whole field would be longer than
/// `MAX_LENGTH`, and only then.
#[verifier::external_body]
pub(crate) fn encode_utf8_string(text: &str) -> (r: Result<Vec<u8>, der::Error>)
    ensures
        match r {
            Ok(bytes) => {
                &&& bytes@ == utf8_string_field(text@)
                &&& bytes@.len() <= MAX_LENGTH
            },
            Err(_) => utf8_string_field(text@).len() > MAX_LENGTH,
        },
{
    der::Encode::to_vec(&der::asn1::Utf8StringRef::new(text)?)
}

/// Reads one `UTF8String` from the start of `bytes` with `der::Reader::decode`
/// of `der::asn1::Utf8StringRef` on a `der::SliceReader`, and returns its text,
/// borrowed from `bytes`, with the number of bytes read. The codec accepts a
/// field with that tag, a length in its shortest form and a value that lies
/// within the input and is well-formed UTF-8; it rejects any input longer than
/// `MAX_LENGTH`.
#[verifier::external_body]
pub(crate) fn decode_utf8_string<'a>(bytes: &'a [u8]) -> (r: Result<(&'a str, usize), der::Error>)
    ensures
        match r {
            Ok((text, n)) => {
                &&& bytes@.len() <= MAX_LENGTH
                &&& utf8_string_field(text@).is_prefix_of(bytes@)
                &&& n == utf8_string_field(text@).len()
            },
            Err(_) => {
                ||| bytes@.len() > MAX_LENGTH
                ||| forall|text: Seq<char>| !(#[trigger] utf8_string_field(text)).is_prefix_of(
                    bytes@,
                )
            },
        },
{
    let mut reader = der::SliceReader::new(bytes)?;
    let field: der::asn1::Utf8StringRef<'a> = der::Reader::decode(&mut reader)?;
    let n = usize::try_from(der::Reader::position(&reader))?;
    Ok((field.as_str(), n))
}

} // verus!
