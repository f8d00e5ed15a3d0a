//! Instants in time.
//!
//! An instant is held the way it is written to a file: the time scale it is
//! counted in, and the time elapsed since the reference epoch of that scale, in
//! centuries and nanoseconds. Calendar arithmetic is left to `hifitime`.

use vstd::prelude::*;
use crate::encoding::codec::{decode_integer, encode_integer};
use crate::encoding::format::{integer_field, MAX_LENGTH};
use crate::encoding::laws::{lemma_integer_field_determined, lemma_prefix_concat};
use crate::errors::AniseError;

verus! {

/// The time scales in which an instant can be counted.
#[derive(Clone, Copy, Debug, PartialEq, Eq, Structural)]
pub enum TimeScale {
    /// International Atomic Time.
    TAI,
    /// Terrestrial Time.
    TT,
    /// Ephemeris Time.
    ET,
    /// Barycentric Dynamical Time.
    TDB,
    /// Coordinated Universal Time.
    UTC,
    /// GPS Time.
    GPST,
    /// Galileo System Time.
    GST,
    /// BeiDou Time.
    BDT,
}

impl TimeScale {
    /// The number that stands for this time scale in a file.
    pub open spec fn spec_code(self) -> u8 {
        match self {
            TimeScale::TAI => 0,
            TimeScale::TT => 1,
            TimeScale::ET => 2,
            TimeScale::TDB => 3,
            TimeScale::UTC => 4,
            TimeScale::GPST => 5,
            TimeScale::GST => 6,
            TimeScale::BDT => 7,
        }
    }

    /// The number that stands for this time scale in a file.
    #[verifier::when_used_as_spec(spec_code)]
    pub fn code(self) -> (code: u8)
        ensures
            code == self.spec_code(),
    {
        match self {
            TimeScale::TAI => 0,
            TimeScale::TT => 1,
            TimeScale::ET => 2,
            TimeScale::TDB => 3,
            TimeScale::UTC => 4,
            TimeScale::GPST => 5,
            TimeScale::GST => 6,
            TimeScale::BDT => 7,
        }
    }

    /// The time scale that `code` stands for. A number that stands for none is
    /// refused, not read as some default scale.
    pub fn from_code(code: u8) -> (scale: Option<TimeScale>)
        ensures
            match scale {
                Some(s) => s.code() == code,
                None => code > 7,
            },
    {
        match code {
            0 => Some(TimeScale::TAI),
            1 => Some(TimeScale::TT),
            2 => Some(TimeScale::ET),
            3 => Some(TimeScale::TDB),
            4 => Some(TimeScale::UTC),
            5 => Some(TimeScale::GPST),
            6 => Some(TimeScale::GST),
            7 => Some(TimeScale::BDT),
            _ => None,
        }
    }

    /// Tells whether this is one of the two dynamical time scales, ET and TDB,
    /// whose relation to the other scales varies along the orbit of the Earth.
    pub open spec fn is_dynamical(self) -> bool {
        self == TimeScale::ET || self == TimeScale::TDB
    }

    /// Distinct time scales have distinct codes, and every code is at most 7.
    pub proof fn lemma_code_injective(a: TimeScale, b: TimeScale)
        ensures
            a.code() <= 7,
            a.code() == b.code() ==> a == b,
    {
    }
}

/// An instant: the time elapsed since the reference epoch of `time_scale`.
#[derive(Clone, Copy, Debug, PartialEq, Eq, Structural)]
pub struct Epoch {
    /// The time scale in which the instant is counted.
    pub time_scale: TimeScale,
    /// Whole centuries since the reference epoch; negative before it.
    pub centuries: i16,
    /// Nanoseconds since the start of that century.
    pub nanoseconds: u64,
}

/// The error type of `hifitime`, `hifitime::Errors`. The crate hands it through
/// and never looks inside.
#[verifier::external_type_specification]
#[verifier::external_body]
pub struct ExHifitimeErrors(hifitime::Errors);

/// The text that `hifitime` prints for the instant that lies `centuries` and
/// `nanoseconds` after the reference epoch of the time scale with the code
/// `time_scale`: the Gregorian date and time of day in UTC. It is spoken of for
/// the time scales other than ET and TDB only.
pub uninterp spec fn epoch_text(time_scale: u8, centuries: i16, nanoseconds: u64) -> Seq<char>;

/// Formats an instant with the `Display` implementation of `hifitime::Epoch`.
/// The instant is built with `hifitime::Duration::from_parts`,
/// `hifitime::TimeScale::from` and `hifitime::Epoch::from_duration`.
///
/// For a time scale other than ET (code 2) and TDB (code 3) the text depends
/// on the three numbers alone: `hifitime` computes it from the duration and its
/// built-in table of leap seconds, with integer arithmetic and the four basic
/// floating-point operations, and consults neither the clock nor the locale
/// nor the time zone of the machine. For ET and TDB it evaluates sines, whose
/// last digit may differ from one platform to another; of that text nothing is
/// claimed.
#[verifier::external_body]
fn format_epoch(time_scale: u8, centuries: i16, nanoseconds: u64) -> (text: String)
    ensures
        time_scale != 2 && time_scale != 3 ==> text@ == epoch_text(
            time_scale,
            centuries,
            nanoseconds,
        ),
{
    let duration = hifitime::Duration::from_parts(centuries, nanoseconds);
    let epoch = hifitime::Epoch::from_duration(duration, hifitime::TimeScale::from(time_scale));
    format!("{}", epoch)
}

/// Reads the system clock with `hifitime::Epoch::now` and returns the code of
/// the time scale of the instant, and the centuries and nanoseconds of
/// `hifitime::Epoch::to_duration`. `hifitime` counts the instant that it reads
/// from the clock in UTC, whose code is 4; nothing is known of what the clock
/// says.
#[verifier::external_body]
fn read_system_clock() -> (r: Result<(u8, i16, u64), hifitime::Errors>)
    ensures
        r matches Ok(parts) ==> parts.0 == 4,
{
    let now = hifitime::Epoch::now()?;
    let (centuries, nanoseconds) = now.to_duration().to_parts();
    Ok((now.time_scale.into(), centuries, nanoseconds))
}

impl Epoch {
    /// The encoding of an instant: three `INTEGER` fields, the code of the time
    /// scale, the centuries and the nanoseconds.
    pub open spec fn der(self) -> Seq<u8> {
        integer_field(self.time_scale.code() as int) + integer_field(self.centuries as int)
            + integer_field(self.nanoseconds as int)
    }

    /// What a reader finds at the start of `bytes`: the instant whose encoding
    /// stands there and the length of that encoding, or nothing where no
    /// instant's encoding stands there or the input is longer than
    /// `MAX_LENGTH`.
    pub open spec fn decoding(bytes: Seq<u8>) -> Option<(Epoch, nat)> {
        if bytes.len() <= MAX_LENGTH && exists|e: Epoch| (#[trigger] e.der()).is_prefix_of(bytes) {
            let e = choose|e: Epoch| (#[trigger] e.der()).is_prefix_of(bytes);
            Some((e, e.der().len()))
        } else {
            None
        }
    }

    /// Where the encoding of an instant stands at the start of a byte string,
    /// its three fields stand there one after the other, and the other way
    /// round.
    pub proof fn lemma_der_fields(self, bytes: Seq<u8>)
        ensures
            self.der().is_prefix_of(bytes) <==> {
                let scale = integer_field(self.time_scale.code() as int);
                let centuries = integer_field(self.centuries as int);
                let nanoseconds = integer_field(self.nanoseconds as int);
                &&& scale.is_prefix_of(bytes)
                &&& centuries.is_prefix_of(bytes.subrange(scale.len() as int, bytes.len() as int))
                &&& nanoseconds.is_prefix_of(
                    bytes.subrange((scale.len() + centuries.len()) as int, bytes.len() as int),
                )
            },
    {
        let scale = integer_field(self.time_scale.code() as int);
        let centuries = integer_field(self.centuries as int);
        let nanoseconds = integer_field(self.nanoseconds as int);
        let rest = bytes.subrange(scale.len() as int, bytes.len() as int);
        assert(self.der() =~= scale + (centuries + nanoseconds));
        lemma_prefix_concat(scale, centuries + nanoseconds, bytes);
        lemma_prefix_concat(centuries, nanoseconds, rest);
        if scale.len() + centuries.len() <= bytes.len() {
            assert(rest.subrange(centuries.len() as int, rest.len() as int) =~= bytes.subrange(
                (scale.len() + centuries.len()) as int,
                bytes.len() as int,
            ));
        }
    }

    /// A byte string begins with the encoding of at most one instant.
    pub proof fn lemma_der_determined(a: Epoch, b: Epoch, bytes: Seq<u8>)
        requires
            bytes.len() <= MAX_LENGTH,
            a.der().is_prefix_of(bytes),
            b.der().is_prefix_of(bytes),
        ensures
            a == b,
    {
        a.lemma_der_fields(bytes);
        b.lemma_der_fields(bytes);
        lemma_integer_field_determined(
            a.time_scale.code() as int,
            b.time_scale.code() as int,
            bytes,
        );
        TimeScale::lemma_code_injective(a.time_scale, b.time_scale);
        let n1 = integer_field(a.time_scale.code() as int).len();
        let rest1 = bytes.subrange(n1 as int, bytes.len() as int);
        lemma_integer_field_determined(a.centuries as int, b.centuries as int, rest1);
        let n2 = n1 + integer_field(a.centuries as int).len();
        let rest2 = bytes.subrange(n2 as int, bytes.len() as int);
        lemma_integer_field_determined(a.nanoseconds as int, b.nanoseconds as int, rest2);
    }

    /// What `decoding` finds stands at the start of the input, and `decoding`
    /// finds nothing only where nothing stands there or the input is too long.
    pub proof fn lemma_decoding_found(bytes: Seq<u8>)
        ensures
            match Epoch::decoding(bytes) {
                Some((v, n)) => {
                    &&& bytes.len() <= MAX_LENGTH
                    &&& v.der().is_prefix_of(bytes)
                    &&& n == v.der().len()
                },
                None => bytes.len() > MAX_LENGTH || forall|v: Epoch|
                    !(#[trigger] v.der()).is_prefix_of(bytes),
            },
    {
    }

    /// Decoding the encoding of an instant, whatever follows it, gives the
    /// instant back and stops where its encoding ends.
    pub proof fn lemma_decoding_of_der(self, rest: Seq<u8>)
        requires
            self.der().len() + rest.len() <= MAX_LENGTH,
        ensures
            Epoch::decoding(self.der() + rest) == Some((self, self.der().len())),
    {
        let bytes = self.der() + rest;
        assert(self.der().is_prefix_of(bytes));
        let e = choose|e: Epoch| (#[trigger] e.der()).is_prefix_of(bytes);
        Epoch::lemma_der_determined(e, self, bytes);
    }

    /// Appends the encoding of this instant to `out`.
    pub fn encode(&self, out: &mut Vec<u8>)
        ensures
            final(out)@ == old(out)@ + self.der(),
    {
        let code = self.time_scale.code();
        match encode_integer(code as i128) {
            Ok(mut bytes) => out.append(&mut bytes),
            Err(_) => vstd::pervasive::unreached(),
        }
        match encode_integer(self.centuries as i128) {
            Ok(mut bytes) => out.append(&mut bytes),
            Err(_) => vstd::pervasive::unreached(),
        }
        match encode_integer(self.nanoseconds as i128) {
            Ok(mut bytes) => out.append(&mut bytes),
            Err(_) => vstd::pervasive::unreached(),
        }
        assert(final(out)@ =~= old(out)@ + self.der());
    }

    /// Reads an instant from the start of `bytes` and returns it with the
    /// number of bytes that encode it. Fails with `DecodeError` where no
    /// instant is encoded there.
    pub fn decode(bytes: &[u8]) -> (r: Result<(Epoch, usize), AniseError>)
        ensures
            match r {
                Ok((e, n)) => Epoch::decoding(bytes@) == Some((e, n as nat)),
                Err(e) => e == AniseError::DecodeError && Epoch::decoding(bytes@) is None,
            },
    {
        let (code, n1) = match decode_integer(bytes) {
            Ok(found) => found,
            Err(_) => {
                proof {
                    if bytes@.len() <= MAX_LENGTH {
                        assert forall|e: Epoch| !(#[trigger] e.der()).is_prefix_of(bytes@) by {
                            e.lemma_der_fields(bytes@);
                            assert(!integer_field(e.time_scale.code() as int).is_prefix_of(bytes@));
                        }
                    }
                }
                return Err(AniseError::DecodeError);
            },
        };
        let rest1 = vstd::slice::slice_subrange(bytes, n1, bytes.len());
        let (centuries, n2) = match decode_integer(rest1) {
            Ok(found) => found,
            Err(_) => {
                proof {
                    assert forall|e: Epoch| !(#[trigger] e.der()).is_prefix_of(bytes@) by {
                        if e.der().is_prefix_of(bytes@) {
                            e.lemma_der_fields(bytes@);
                            lemma_integer_field_determined(
                                e.time_scale.code() as int,
                                code as int,
                                bytes@,
                            );
                            assert(integer_field(e.centuries as int).is_prefix_of(rest1@));
                        }
                    }
                }
                return Err(AniseError::DecodeError);
            },
        };
        let rest2 = vstd::slice::slice_subrange(bytes, n1 + n2, bytes.len());
        let (nanoseconds, n3) = match decode_integer(rest2) {
            Ok(found) => found,
            Err(_) => {
                proof {
                    assert forall|e: Epoch| !(#[trigger] e.der()).is_prefix_of(bytes@) by {
                        if e.der().is_prefix_of(bytes@) {
                            e.lemma_der_fields(bytes@);
                            lemma_integer_field_determined(
                                e.time_scale.code() as int,
                                code as int,
                                bytes@,
                            );
                            lemma_integer_field_determined(
                                e.centuries as int,
                                centuries as int,
                                rest1@,
                            );
                            assert(integer_field(e.nanoseconds as int).is_prefix_of(rest2@));
                        }
                    }
                }
                return Err(AniseError::DecodeError);
            },
        };
        proof {
            // Any instant encoded at the start of `bytes` has the three numbers just read.
            assert forall|e: Epoch| (#[trigger] e.der()).is_prefix_of(bytes@) implies {
                &&& e.time_scale.code() == code
                &&& e.centuries == centuries
                &&& e.nanoseconds == nanoseconds
            } by {
                e.lemma_der_fields(bytes@);
                lemma_integer_field_determined(e.time_scale.code() as int, code as int, bytes@);
                lemma_integer_field_determined(e.centuries as int, centuries as int, rest1@);
                lemma_integer_field_determined(e.nanoseconds as int, nanoseconds as int, rest2@);
            }
        }
        proof {
            assert forall|e: Epoch| (#[trigger] e.der()).is_prefix_of(bytes@) implies 0 <= code
                <= 7 by {
                TimeScale::lemma_code_injective(e.time_scale, e.time_scale);
            }
        }
        if code < 0 || code > u8::MAX as i128 || centuries < i16::MIN as i128 || centuries
            > i16::MAX as i128 || nanoseconds < 0 || nanoseconds > u64::MAX as i128 {
            return Err(AniseError::DecodeError);
        }
        match Epoch::from_parts(code as u8, centuries as i16, nanoseconds as u64) {
            Some(e) => {
                proof {
                    e.lemma_der_fields(bytes@);
                    let w = choose|w: Epoch| (#[trigger] w.der()).is_prefix_of(bytes@);
                    Epoch::lemma_der_determined(w, e, bytes@);
                }
                Ok((e, n1 + n2 + n3))
            },
            None => Err(AniseError::DecodeError),
        }
    }

    /// The instant that the three numbers of a file stand for, or nothing where
    /// `code` stands for no time scale.
    pub fn from_parts(code: u8, centuries: i16, nanoseconds: u64) -> (r: Option<Epoch>)
        ensures
            match r {
                Some(e) => e.time_scale.code() == code && e.centuries == centuries
                    && e.nanoseconds == nanoseconds,
                None => code > 7,
            },
    {
        match TimeScale::from_code(code) {
            Some(time_scale) => Some(Epoch { time_scale, centuries, nanoseconds }),
            None => None,
        }
    }

    /// The current time according to the system clock, counted in UTC, or
    /// nothing where the clock cannot be read.
    pub fn now() -> (r: Option<Epoch>)
        ensures
            r matches Some(e) ==> e.time_scale == TimeScale::UTC,
    {
        match read_system_clock() {
            Ok((code, centuries, nanoseconds)) => Epoch::from_parts(code, centuries, nanoseconds),
            Err(_) => None,
        }
    }

    /// The text that `hifitime` prints for this instant, where the three
    /// numbers of the instant determine it.
    pub open spec fn text(self) -> Seq<char>
        recommends
            !self.time_scale.is_dynamical(),
    {
        epoch_text(self.time_scale.code(), self.centuries, self.nanoseconds)
    }

    /// The date and time of this instant in words, as `hifitime` prints them.
    /// In a dynamical time scale the last digits of the text may depend on the
    /// platform.
    pub fn render(&self) -> (text: String)
        ensures
            !self.time_scale.is_dynamical() ==> text@ == self.text(),
    {
        format_epoch(self.time_scale.code(), self.centuries, self.nanoseconds)
    }
}

} // verus!
