//! The header that opens every data file.
//!
//! The header says which version of the format the file is written in, when
//! and by whom it was made, and where its own metadata can be found. It is
//! encoded as four fields in a fixed order: version, creation date,
//! originator, metadata URI.

use vstd::prelude::*;
use vstd::string::{StringExecFns, StringSliceAdditionalSpecFns};
use crate::encoding::codec::{decode_utf8_string, encode_utf8_string};
use crate::encoding::format::{field_size, utf8_string_field, MAX_LENGTH};
use crate::encoding::laws::{lemma_prefix_concat, lemma_utf8_string_field_determined};
use crate::encoding::size::field_len;
use crate::errors::AniseError;
use crate::structure::epoch::{Epoch, TimeScale};
use crate::structure::semver::Semver;

verus! {

/// Major component of the version of the format that this crate reads and
/// writes.
pub const ANISE_VERSION_MAJOR: u8 = 0;

/// Minor component of that version.
pub const ANISE_VERSION_MINOR: u8 = 0;

/// Patch component of that version.
pub const ANISE_VERSION_PATCH: u8 = 1;

/// The version of the format that this crate reads and writes.
pub open spec fn spec_anise_version() -> Semver {
    Semver { major: ANISE_VERSION_MAJOR, minor: ANISE_VERSION_MINOR, patch: ANISE_VERSION_PATCH }
}

/// The version of the format that this crate reads and writes.
#[verifier::when_used_as_spec(spec_anise_version)]
pub fn anise_version() -> (v: Semver)
    ensures
        v == spec_anise_version(),
{
    Semver { major: ANISE_VERSION_MAJOR, minor: ANISE_VERSION_MINOR, patch: ANISE_VERSION_PATCH }
}

/// The header of a data file. An empty `originator` or `metadata_uri` means
/// that the field is not set.
#[derive(Copy, Clone, Debug)]
pub struct Metadata<'a> {
    /// The version of the format that the file is written in. It stands first
    /// in the encoding, so that a reader can tell whether it understands the
    /// rest.
    pub anise_version: Semver,
    /// When the file was made.
    pub creation_date: Epoch,
    /// Who made the file: an organization, a person, a tool.
    pub originator: &'a str,
    /// Where the metadata of the file can be found.
    pub metadata_uri: &'a str,
}

/// What a header says: its four fields, the texts as sequences of characters.
pub struct MetadataView {
    pub anise_version: Semver,
    pub creation_date: Epoch,
    pub originator: Seq<char>,
    pub metadata_uri: Seq<char>,
}

impl<'a> View for Metadata<'a> {
    type V = MetadataView;

    open spec fn view(&self) -> MetadataView {
        MetadataView {
            anise_version: self.anise_version,
            creation_date: self.creation_date,
            originator: self.originator@,
            metadata_uri: self.metadata_uri@,
        }
    }
}

/// How a text field is shown: as it is, or as a placeholder where it is not
/// set, so that an unset field is never mistaken for a blank line.
pub open spec fn shown(text: Seq<char>) -> Seq<char> {
    if text.len() == 0 {
        "(not set)"@
    } else {
        text
    }
}

impl MetadataView {
    /// The encoding of a header: its four fields in their fixed order.
    pub open spec fn der(self) -> Seq<u8> {
        self.anise_version.der() + self.creation_date.der() + utf8_string_field(self.originator)
            + utf8_string_field(self.metadata_uri)
    }

    /// What a reader finds at the start of `bytes`: the header whose encoding
    /// stands there and the length of that encoding, or nothing where no
    /// header's encoding stands there or the input is longer than
    /// `MAX_LENGTH`.
    pub open spec fn decoding(bytes: Seq<u8>) -> Option<(MetadataView, nat)> {
        if bytes.len() <= MAX_LENGTH && exists|m: MetadataView|
            (#[trigger] m.der()).is_prefix_of(bytes) {
            let m = choose|m: MetadataView| (#[trigger] m.der()).is_prefix_of(bytes);
            Some((m, m.der().len()))
        } else {
            None
        }
    }

    /// The header in words, given the creation date in words: four lines, one
    /// for each field.
    pub open spec fn rendering(self, creation_date: Seq<char>) -> Seq<char> {
        "ANISE version "@ + self.anise_version.text() + "\nOriginator: "@ + shown(self.originator)
            + "\nCreation date: "@ + creation_date + "\nMetadata URI: "@ + shown(
            self.metadata_uri,
        ) + "\n"@
    }

    /// Where the encoding of a header stands at the start of a byte string,
    /// its four fields stand there one after the other, and the other way
    /// round.
    pub proof fn lemma_der_fields(self, bytes: Seq<u8>)
        ensures
            self.der().is_prefix_of(bytes) <==> {
                let version = self.anise_version.der();
                let date = self.creation_date.der();
                let originator = utf8_string_field(self.originator);
                let uri = utf8_string_field(self.metadata_uri);
                &&& version.is_prefix_of(bytes)
                &&& date.is_prefix_of(bytes.subrange(version.len() as int, bytes.len() as int))
                &&& originator.is_prefix_of(
                    bytes.subrange((version.len() + date.len()) as int, bytes.len() as int),
                )
                &&& uri.is_prefix_of(
                    bytes.subrange(
                        (version.len() + date.len() + originator.len()) as int,
                        bytes.len() as int,
                    ),
                )
            },
    {
        let version = self.anise_version.der();
        let date = self.creation_date.der();
        let originator = utf8_string_field(self.originator);
        let uri = utf8_string_field(self.metadata_uri);
        let len = bytes.len() as int;
        let rest1 = bytes.subrange(version.len() as int, len);
        let rest2 = bytes.subrange((version.len() + date.len()) as int, len);
        assert(self.der() =~= version + (date + (originator + uri)));
        lemma_prefix_concat(version, date + (originator + uri), bytes);
        lemma_prefix_concat(date, originator + uri, rest1);
        if version.len() + date.len() <= len {
            assert(rest1.subrange(date.len() as int, rest1.len() as int) =~= rest2);
        }
        lemma_prefix_concat(originator, uri, rest2);
        if version.len() + date.len() + originator.len() <= len {
            assert(rest2.subrange(originator.len() as int, rest2.len() as int) =~= bytes.subrange(
                (version.len() + date.len() + originator.len()) as int,
                len,
            ));
        }
    }

    /// The length of the encoding of a header: the sum of the lengths of its
    /// four fields.
    pub proof fn lemma_der_len(self)
        ensures
            self.der().len() == self.anise_version.der().len() + self.creation_date.der().len()
                + field_size(vstd::utf8::encode_utf8(self.originator).len()) + field_size(
                vstd::utf8::encode_utf8(self.metadata_uri).len(),
            ),
    {
    }

    /// A byte string begins with the encoding of at most one header.
    pub proof fn lemma_der_determined(a: MetadataView, b: MetadataView, bytes: Seq<u8>)
        requires
            bytes.len() <= MAX_LENGTH,
            a.der().is_prefix_of(bytes),
            b.der().is_prefix_of(bytes),
        ensures
            a == b,
    {
        a.lemma_der_fields(bytes);
        b.lemma_der_fields(bytes);
        let len = bytes.len() as int;
        Semver::lemma_der_determined(a.anise_version, b.anise_version, bytes);
        let n1 = a.anise_version.der().len();
        Epoch::lemma_der_determined(a.creation_date, b.creation_date, bytes.subrange(n1 as int, len));
        let n2 = n1 + a.creation_date.der().len();
        lemma_utf8_string_field_determined(
            a.originator,
            b.originator,
            bytes.subrange(n2 as int, len),
        );
        let n3 = n2 + utf8_string_field(a.originator).len();
        lemma_utf8_string_field_determined(
            a.metadata_uri,
            b.metadata_uri,
            bytes.subrange(n3 as int, len),
        );
    }

    /// What `decoding` finds stands at the start of the input, and `decoding`
    /// finds nothing only where nothing stands there or the input is too long.
    pub proof fn lemma_decoding_found(bytes: Seq<u8>)
        ensures
            match MetadataView::decoding(bytes) {
                Some((m, n)) => {
                    &&& bytes.len() <= MAX_LENGTH
                    &&& m.der().is_prefix_of(bytes)
                    &&& n == m.der().len()
                },
                None => bytes.len() > MAX_LENGTH || forall|m: MetadataView|
                    !(#[trigger] m.der()).is_prefix_of(bytes),
            },
    {
    }

    /// Round trip: decoding the encoding of a header, whatever follows it,
    /// gives back a header with the same four fields and stops where the
    /// encoding ends.
    pub proof fn lemma_decoding_of_der(self, rest: Seq<u8>)
        requires
            self.der().len() + rest.len() <= MAX_LENGTH,
        ensures
            MetadataView::decoding(self.der() + rest) == Some((self, self.der().len())),
    {
        let bytes = self.der() + rest;
        assert(self.der().is_prefix_of(bytes));
        let m = choose|m: MetadataView| (#[trigger] m.der()).is_prefix_of(bytes);
        MetadataView::lemma_der_determined(m, self, bytes);
    }
}

impl<'a> Metadata<'a> {
    /// The header of a file made at `creation_date` by this version of the
    /// crate, with neither originator nor metadata URI set.
    pub fn new(creation_date: Epoch) -> (m: Metadata<'static>)
        ensures
            m.anise_version == anise_version(),
            m.creation_date == creation_date,
            m.originator@ == Seq::<char>::empty(),
            m.metadata_uri@ == Seq::<char>::empty(),
    {
        proof {
            reveal_strlit("");
        }
        let m = Metadata {
            anise_version: anise_version(),
            creation_date,
            originator: "",
            metadata_uri: "",
        };
        assert(m.originator@ =~= Seq::<char>::empty());
        m
    }

    /// The header of a file made now, by the system clock, or nothing where
    /// the clock cannot be read.
    pub fn now() -> (r: Option<Metadata<'static>>)
        ensures
            r matches Some(m) ==> {
                &&& m.anise_version == anise_version()
                &&& m.creation_date.time_scale == TimeScale::UTC
                &&& m.originator@ == Seq::<char>::empty()
                &&& m.metadata_uri@ == Seq::<char>::empty()
            },
    {
        match Epoch::now() {
            Some(creation_date) => Some(Metadata::new(creation_date)),
            None => None,
        }
    }

    /// The length of the encoding of this header. Fails with `EncodeError`
    /// where the encoding would be longer than `MAX_LENGTH`.
    pub fn encoded_len(&self) -> (r: Result<usize, AniseError>)
        ensures
            match r {
                Ok(n) => n == self@.der().len() && n <= MAX_LENGTH,
                Err(e) => e == AniseError::EncodeError && self@.der().len() > MAX_LENGTH,
            },
    {
        let originator = match field_len(self.originator.as_bytes().len()) {
            Some(n) => n,
            None => {
                return Err(AniseError::EncodeError);
            },
        };
        let uri = match field_len(self.metadata_uri.as_bytes().len()) {
            Some(n) => n,
            None => {
                return Err(AniseError::EncodeError);
            },
        };
        let mut head: Vec<u8> = Vec::new();
        self.anise_version.encode(&mut head);
        self.creation_date.encode(&mut head);
        proof {
            self@.lemma_der_len();
            assert(head@.len() == self.anise_version.der().len() + self.creation_date.der().len());
            assert(self.originator.spec_bytes() == vstd::utf8::encode_utf8(self@.originator));
            assert(self.metadata_uri.spec_bytes() == vstd::utf8::encode_utf8(self@.metadata_uri));
        }
        if head.len() > MAX_LENGTH - originator || head.len() + originator > MAX_LENGTH - uri {
            Err(AniseError::EncodeError)
        } else {
            Ok(head.len() + originator + uri)
        }
    }

    /// Appends the encoding of this header to `out`. Fails with `EncodeError`
    /// where the encoding would be longer than `MAX_LENGTH`, and then leaves
    /// `out` as it was.
    pub fn encode(&self, out: &mut Vec<u8>) -> (r: Result<(), AniseError>)
        ensures
            match r {
                Ok(()) => {
                    &&& self@.der().len() <= MAX_LENGTH
                    &&& final(out)@ == old(out)@ + self@.der()
                },
                Err(e) => {
                    &&& e == AniseError::EncodeError
                    &&& self@.der().len() > MAX_LENGTH
                    &&& final(out)@ == old(out)@
                },
            },
    {
        let mut originator = match encode_utf8_string(self.originator) {
            Ok(bytes) => bytes,
            Err(_) => {
                return Err(AniseError::EncodeError);
            },
        };
        let mut uri = match encode_utf8_string(self.metadata_uri) {
            Ok(bytes) => bytes,
            Err(_) => {
                return Err(AniseError::EncodeError);
            },
        };
        let mut head: Vec<u8> = Vec::new();
        self.anise_version.encode(&mut head);
        self.creation_date.encode(&mut head);
        proof {
            self@.lemma_der_len();
        }
        if head.len() > MAX_LENGTH - originator.len() || head.len() + originator.len() > MAX_LENGTH
            - uri.len() {
            return Err(AniseError::EncodeError);
        }
        out.append(&mut head);
        out.append(&mut originator);
        out.append(&mut uri);
        assert(final(out)@ =~= old(out)@ + self@.der());
        Ok(())
    }

    /// Reads a header from the start of `bytes` and returns it with the number
    /// of bytes that encode it; what follows them is left to the caller. The
    /// texts of the header are borrowed from `bytes`. Fails with `DecodeError`
    /// where no header is encoded there: nothing is made of a record that is
    /// well formed in part only.
    pub fn decode(bytes: &'a [u8]) -> (r: Result<(Metadata<'a>, usize), AniseError>)
        ensures
            match r {
                Ok((m, n)) => MetadataView::decoding(bytes@) == Some((m@, n as nat)),
                Err(e) => e == AniseError::DecodeError && MetadataView::decoding(bytes@) is None,
            },
    {
        let (anise_version, n1) = match Semver::decode(bytes) {
            Ok(found) => found,
            Err(_) => {
                proof {
                    Semver::lemma_decoding_found(bytes@);
                    if bytes@.len() <= MAX_LENGTH {
                        assert forall|m: MetadataView| !(#[trigger] m.der()).is_prefix_of(
                            bytes@,
                        ) by {
                            m.lemma_der_fields(bytes@);
                            assert(!m.anise_version.der().is_prefix_of(bytes@));
                        }
                    }
                }
                return Err(AniseError::DecodeError);
            },
        };
        proof {
            Semver::lemma_decoding_found(bytes@);
        }
        let rest1 = vstd::slice::slice_subrange(bytes, n1, bytes.len());
        let (creation_date, n2) = match Epoch::decode(rest1) {
            Ok(found) => found,
            Err(_) => {
                proof {
                    assert forall|m: MetadataView| !(#[trigger] m.der()).is_prefix_of(bytes@) by {
                        if m.der().is_prefix_of(bytes@) {
                            m.lemma_der_fields(bytes@);
                            Semver::lemma_der_determined(m.anise_version, anise_version, bytes@);
                            Epoch::lemma_decoding_found(rest1@);
                            assert(m.creation_date.der().is_prefix_of(rest1@));
                        }
                    }
                }
                return Err(AniseError::DecodeError);
            },
        };
        proof {
            Epoch::lemma_decoding_found(rest1@);
        }
        let rest2 = vstd::slice::slice_subrange(bytes, n1 + n2, bytes.len());
        let (originator, n3) = match decode_utf8_string(rest2) {
            Ok(found) => found,
            Err(_) => {
                proof {
                    assert forall|m: MetadataView| !(#[trigger] m.der()).is_prefix_of(bytes@) by {
                        if m.der().is_prefix_of(bytes@) {
                            m.lemma_der_fields(bytes@);
                            Semver::lemma_der_determined(m.anise_version, anise_version, bytes@);
                            Epoch::lemma_der_determined(m.creation_date, creation_date, rest1@);
                            assert(utf8_string_field(m.originator).is_prefix_of(rest2@));
                        }
                    }
                }
                return Err(AniseError::DecodeError);
            },
        };
        let rest3 = vstd::slice::slice_subrange(bytes, n1 + n2 + n3, bytes.len());
        let (metadata_uri, n4) = match decode_utf8_string(rest3) {
            Ok(found) => found,
            Err(_) => {
                proof {
                    assert forall|m: MetadataView| !(#[trigger] m.der()).is_prefix_of(bytes@) by {
                        if m.der().is_prefix_of(bytes@) {
                            m.lemma_der_fields(bytes@);
                            Semver::lemma_der_determined(m.anise_version, anise_version, bytes@);
                            Epoch::lemma_der_determined(m.creation_date, creation_date, rest1@);
                            lemma_utf8_string_field_determined(m.originator, originator@, rest2@);
                            assert(utf8_string_field(m.metadata_uri).is_prefix_of(rest3@));
                        }
                    }
                }
                return Err(AniseError::DecodeError);
            },
        };
        let m = Metadata { anise_version, creation_date, originator, metadata_uri };
        proof {
            m@.lemma_der_fields(bytes@);
            let w = choose|w: MetadataView| (#[trigger] w.der()).is_prefix_of(bytes@);
            MetadataView::lemma_der_determined(w, m@, bytes@);
        }
        Ok((m, n1 + n2 + n3 + n4))
    }

    /// Tells whether a reader that implements the version `supported` can read
    /// the file that this header opens: it can unless the major component of
    /// the file's version is beyond its own.
    pub fn check_version(&self, supported: Semver) -> (r: Result<(), AniseError>)
        ensures
            match r {
                Ok(()) => self.anise_version.major <= supported.major,
                Err(e) => {
                    &&& self.anise_version.major > supported.major
                    &&& e == (AniseError::VersionIncompatible {
                        found: self.anise_version,
                        supported,
                    })
                },
            },
    {
        if self.anise_version.major > supported.major {
            Err(AniseError::VersionIncompatible { found: self.anise_version, supported })
        } else {
            Ok(())
        }
    }

    /// Reads the header of a file on behalf of a reader that implements the
    /// version `supported`. The version is read first and by itself: where it
    /// is beyond the reader, the call fails with `VersionIncompatible` and the
    /// rest of the header is not looked at, since a later format may lay it out
    /// in another way. Otherwise the call does what `decode` does.
    pub fn decode_compatible(bytes: &'a [u8], supported: Semver) -> (r: Result<
        (Metadata<'a>, usize),
        AniseError,
    >)
        ensures
            match r {
                Ok((m, n)) => {
                    &&& MetadataView::decoding(bytes@) == Some((m@, n as nat))
                    &&& m.anise_version.major <= supported.major
                },
                Err(AniseError::VersionIncompatible { found, supported: reader }) => {
                    &&& Semver::decoding(bytes@) matches Some((version, _))
                    &&& found == version
                    &&& found.major > supported.major
                    &&& reader == supported
                },
                Err(AniseError::DecodeError) => {
                    &&& MetadataView::decoding(bytes@) is None
                    &&& Semver::decoding(bytes@) matches Some((version, _)) ==> version.major
                        <= supported.major
                },
                Err(_) => false,
            },
    {
        match Semver::decode(bytes) {
            Ok((found, _)) => {
                if found.major > supported.major {
                    return Err(AniseError::VersionIncompatible { found, supported });
                }
            },
            Err(_) => {},
        }
        match Metadata::decode(bytes) {
            Ok((m, n)) => {
                proof {
                    MetadataView::lemma_decoding_found(bytes@);
                    Semver::lemma_decoding_found(bytes@);
                    m@.lemma_der_fields(bytes@);
                    match Semver::decoding(bytes@) {
                        Some((version, _)) => {
                            Semver::lemma_der_determined(version, m.anise_version, bytes@);
                        },
                        None => {},
                    }
                }
                Ok((m, n))
            },
            Err(e) => Err(e),
        }
    }

    /// The header in words, given the creation date in words.
    pub fn render_with_date(&self, creation_date: &str) -> (text: String)
        ensures
            text@ == self@.rendering(creation_date@),
    {
        let mut text = String::new();
        text.append("ANISE version ");
        self.anise_version.render_into(&mut text);
        text.append("\nOriginator: ");
        if self.originator.is_empty() {
            text.append("(not set)");
        } else {
            text.append(self.originator);
        }
        text.append("\nCreation date: ");
        text.append(creation_date);
        text.append("\nMetadata URI: ");
        if self.metadata_uri.is_empty() {
            text.append("(not set)");
        } else {
            text.append(self.metadata_uri);
        }
        text.append("\n");
        assert(text@ =~= self@.rendering(creation_date@));
        text
    }

    /// The header in words, for people to read: the version, the originator,
    /// the creation date as `hifitime` prints it, and the metadata URI, each on
    /// a line of its own.
    pub fn render(&self) -> (text: String)
        ensures
            exists|date: Seq<char>| text@ == #[trigger] self@.rendering(date),
            !self.creation_date.time_scale.is_dynamical() ==> text@ == self@.rendering(
                self.creation_date.text(),
            ),
    {
        let creation_date = self.creation_date.render();
        let text = self.render_with_date(creation_date.as_str());
        assert(text@ == self@.rendering(creation_date@));
        text
    }
}

} // verus!
