//! Semantic versions.

use vstd::prelude::*;
use crate::encoding::codec::{decode_octet_string, encode_octet_string};
use crate::encoding::format::{octet_string_field, MAX_LENGTH, TAG_OCTET_STRING};
use crate::encoding::laws::lemma_field_determined;
use crate::errors::AniseError;
use crate::text::{decimal, push_decimal};
use vstd::string::StringExecFns;

verus! {

/// A semantic version: major, minor and patch component. Versions are ordered
/// by their major component, then by the minor, then by the patch.
#[derive(Clone, Copy, Debug, PartialEq, Eq, PartialOrd, Ord, Structural)]
pub struct Semver {
    pub major: u8,
    pub minor: u8,
    pub patch: u8,
}

impl Semver {
    /// The encoding of a version: one `OCTET STRING` of three octets, the
    /// major, the minor and the patch component.
    pub open spec fn der(self) -> Seq<u8> {
        octet_string_field(seq![self.major, self.minor, self.patch])
    }

    /// What a reader finds at the start of `bytes`: the version whose encoding
    /// stands there and the length of that encoding, or nothing where no
    /// version's encoding stands there or the input is longer than
    /// `MAX_LENGTH`.
    pub open spec fn decoding(bytes: Seq<u8>) -> Option<(Semver, nat)> {
        if bytes.len() <= MAX_LENGTH && exists|v: Semver| (#[trigger] v.der()).is_prefix_of(bytes) {
            let v = choose|v: Semver| (#[trigger] v.der()).is_prefix_of(bytes);
            Some((v, v.der().len()))
        } else {
            None
        }
    }

    /// The version in words: the three components in decimal notation, with a
    /// dot between them.
    pub open spec fn text(self) -> Seq<char> {
        decimal(self.major as nat) + seq!['.'] + decimal(self.minor as nat) + seq!['.'] + decimal(
            self.patch as nat,
        )
    }

    /// Appends the version in words to `out`.
    pub fn render_into(&self, out: &mut String)
        ensures
            final(out)@ == old(out)@ + self.text(),
    {
        proof {
            reveal_strlit(".");
        }
        push_decimal(out, self.major);
        out.append(".");
        push_decimal(out, self.minor);
        out.append(".");
        push_decimal(out, self.patch);
        assert(final(out)@ =~= old(out)@ + self.text());
    }

    /// The version in words.
    pub fn render(&self) -> (text: String)
        ensures
            text@ == self.text(),
    {
        let mut text = String::new();
        self.render_into(&mut text);
        text
    }

    /// A byte string begins with the encoding of at most one version.
    pub proof fn lemma_der_determined(a: Semver, b: Semver, bytes: Seq<u8>)
        requires
            bytes.len() <= MAX_LENGTH,
            a.der().is_prefix_of(bytes),
            b.der().is_prefix_of(bytes),
        ensures
            a == b,
    {
        let oa = seq![a.major, a.minor, a.patch];
        let ob = seq![b.major, b.minor, b.patch];
        lemma_field_determined(TAG_OCTET_STRING, oa, TAG_OCTET_STRING, ob, bytes);
        assert(oa[0] == ob[0] && oa[1] == ob[1] && oa[2] == ob[2]);
    }

    /// The encoding of every version is five bytes long.
    pub proof fn lemma_der_len(self)
        ensures
            self.der().len() == 5,
    {
    }

    /// What `decoding` finds stands at the start of the input, and `decoding`
    /// finds nothing only where nothing stands there or the input is too long.
    pub proof fn lemma_decoding_found(bytes: Seq<u8>)
        ensures
            match Semver::decoding(bytes) {
                Some((v, n)) => {
                    &&& bytes.len() <= MAX_LENGTH
                    &&& v.der().is_prefix_of(bytes)
                    &&& n == v.der().len()
                },
                None => bytes.len() > MAX_LENGTH || forall|v: Semver|
                    !(#[trigger] v.der()).is_prefix_of(bytes),
            },
    {
    }

    /// Decoding the encoding of a version, whatever follows it, gives the
    /// version back and stops where its encoding ends.
    pub proof fn lemma_decoding_of_der(self, rest: Seq<u8>)
        requires
            self.der().len() + rest.len() <= MAX_LENGTH,
        ensures
            Semver::decoding(self.der() + rest) == Some((self, self.der().len())),
    {
        let bytes = self.der() + rest;
        assert(self.der().is_prefix_of(bytes));
        let v = choose|v: Semver| (#[trigger] v.der()).is_prefix_of(bytes);
        Semver::lemma_der_determined(v, self, bytes);
    }

    /// Appends the encoding of this version to `out`.
    pub fn encode(&self, out: &mut Vec<u8>)
        ensures
            final(out)@ == old(out)@ + self.der(),
    {
        let mut octets: Vec<u8> = Vec::new();
        octets.push(self.major);
        octets.push(self.minor);
        octets.push(self.patch);
        assert(octets@ == seq![self.major, self.minor, self.patch]);
        match encode_octet_string(octets.as_slice()) {
            Ok(mut bytes) => {
                out.append(&mut bytes);
            },
            Err(_) => {
                proof {
                    self.lemma_der_len();
                }
                vstd::pervasive::unreached()
            },
        }
    }

    /// Reads a version from the start of `bytes` and returns it with the number
    /// of bytes that encode it. Fails with `DecodeError` where no version is
    /// encoded there.
    pub fn decode(bytes: &[u8]) -> (r: Result<(Semver, usize), AniseError>)
        ensures
            match r {
                Ok((v, n)) => Semver::decoding(bytes@) == Some((v, n as nat)),
                Err(e) => e == AniseError::DecodeError && Semver::decoding(bytes@) is None,
            },
    {
        match decode_octet_string(bytes) {
            Ok((octets, n)) => {
                if octets.len() == 3 {
                    let v = Semver { major: octets[0], minor: octets[1], patch: octets[2] };
                    proof {
                        assert(octets@ == seq![v.major, v.minor, v.patch]);
                        assert(v.der().is_prefix_of(bytes@));
                        let w = choose|w: Semver| (#[trigger] w.der()).is_prefix_of(bytes@);
                        Semver::lemma_der_determined(w, v, bytes@);
                    }
                    Ok((v, n))
                } else {
                    proof {
                        assert forall|v: Semver| !(#[trigger] v.der()).is_prefix_of(bytes@) by {
                            if v.der().is_prefix_of(bytes@) {
                                lemma_field_determined(
                                    TAG_OCTET_STRING,
                                    seq![v.major, v.minor, v.patch],
                                    TAG_OCTET_STRING,
                                    octets@,
                                    bytes@,
                                );
                            }
                        }
                    }
                    Err(AniseError::DecodeError)
                }
            },
            Err(_) => {
                proof {
                    if bytes@.len() <= MAX_LENGTH {
                        assert forall|v: Semver| !(#[trigger] v.der()).is_prefix_of(bytes@) by {
                            assert(v.der() == octet_string_field(seq![v.major, v.minor, v.patch]));
                        }
                    }
                }
                Err(AniseError::DecodeError)
            },
        }
    }
}

} // verus!
