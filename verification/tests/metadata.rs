use anise::encoding::format::MAX_LENGTH;
use anise::prelude::{AniseError, Epoch, Metadata, Semver, TimeScale};
use anise::structure::metadata::anise_version;

fn sample() -> Metadata<'static> {
    Metadata {
        anise_version: Semver { major: 0, minor: 0, patch: 1 },
        creation_date: Epoch { time_scale: TimeScale::TAI, centuries: 1, nanoseconds: 123 },
        originator: "Alice",
        metadata_uri: "",
    }
}

fn sample_bytes() -> Vec<u8> {
    vec![
        0x04, 0x03, 0x00, 0x00, 0x01, // version
        0x02, 0x01, 0x00, 0x02, 0x01, 0x01, 0x02, 0x01, 0x7b, // creation date
        0x0c, 0x05, 0x41, 0x6c, 0x69, 0x63, 0x65, // originator
        0x0c, 0x00, // metadata URI
    ]
}

fn encoded(m: &Metadata) -> Vec<u8> {
    let mut out = Vec::new();
    m.encode(&mut out).unwrap();
    out
}

fn assert_same(a: &Metadata, b: &Metadata) {
    assert_eq!(a.anise_version, b.anise_version);
    assert_eq!(a.creation_date, b.creation_date);
    assert_eq!(a.originator, b.originator);
    assert_eq!(a.metadata_uri, b.metadata_uri);
}

#[test]
fn encode_gives_the_four_fields_in_order() {
    assert_eq!(encoded(&sample()), sample_bytes());
}

#[test]
fn encode_appends_to_what_is_there() {
    let mut out = vec![0xaa, 0xbb];
    sample().encode(&mut out).unwrap();
    assert_eq!(&out[..2], &[0xaa, 0xbb]);
    assert_eq!(&out[2..], &sample_bytes()[..]);
}

#[test]
fn encoded_len_is_the_length_of_the_encoding() {
    assert_eq!(sample().encoded_len(), Ok(23));
    let long = "x".repeat(300);
    let m = Metadata { originator: &long, metadata_uri: &long, ..sample() };
    assert_eq!(m.encoded_len(), Ok(encoded(&m).len()));
    assert_eq!(m.encoded_len(), Ok(5 + 9 + 2 * (1 + 3 + 300)));
}

#[test]
fn decode_reads_the_four_fields() {
    let bytes = sample_bytes();
    let (m, n) = Metadata::decode(&bytes).unwrap();
    assert_eq!(n, 23);
    assert_same(&m, &sample());
}

#[test]
fn decode_leaves_what_follows_the_header() {
    let mut bytes = sample_bytes();
    bytes.extend_from_slice(&[0x30, 0x03, 0x01, 0x02, 0x03]);
    let (m, n) = Metadata::decode(&bytes).unwrap();
    assert_eq!(n, 23);
    assert_same(&m, &sample());
}

#[test]
fn round_trip_keeps_every_field() {
    let long = "é".repeat(70_000);
    let cases = [
        sample(),
        Metadata {
            anise_version: Semver { major: 255, minor: 128, patch: 127 },
            creation_date: Epoch {
                time_scale: TimeScale::BDT,
                centuries: i16::MIN,
                nanoseconds: u64::MAX,
            },
            originator: "",
            metadata_uri: "",
        },
        Metadata {
            anise_version: Semver { major: 1, minor: 2, patch: 3 },
            creation_date: Epoch { time_scale: TimeScale::UTC, centuries: -1, nanoseconds: 128 },
            originator: "Nyx Space — ANISE ☄",
            metadata_uri: "https://example.org/metadata?id=42",
        },
        Metadata {
            anise_version: Semver { major: 0, minor: 0, patch: 0 },
            creation_date: Epoch {
                time_scale: TimeScale::ET,
                centuries: i16::MAX,
                nanoseconds: 0x8000_0000_0000_0000,
            },
            originator: &long,
            metadata_uri: "a",
        },
    ];
    for m in cases.iter() {
        let bytes = encoded(m);
        assert_eq!(m.encoded_len(), Ok(bytes.len()));
        let (back, n) = Metadata::decode(&bytes).unwrap();
        assert_eq!(n, bytes.len());
        assert_same(&back, m);
    }
}

#[test]
fn round_trip_for_every_time_scale() {
    let scales = [
        TimeScale::TAI,
        TimeScale::TT,
        TimeScale::ET,
        TimeScale::TDB,
        TimeScale::UTC,
        TimeScale::GPST,
        TimeScale::GST,
        TimeScale::BDT,
    ];
    for (code, scale) in scales.iter().enumerate() {
        assert_eq!(scale.code() as usize, code);
        assert_eq!(TimeScale::from_code(code as u8), Some(*scale));
        let m = Metadata {
            creation_date: Epoch { time_scale: *scale, centuries: 1, nanoseconds: 5 },
            ..sample()
        };
        let bytes = encoded(&m);
        assert_eq!(bytes[7], code as u8);
        let (back, _) = Metadata::decode(&bytes).unwrap();
        assert_eq!(back.creation_date, m.creation_date);
    }
    assert_eq!(TimeScale::from_code(8), None);
    assert_eq!(TimeScale::from_code(255), None);
}

#[test]
fn decode_rejects_an_empty_input() {
    assert_eq!(Metadata::decode(&[]).err(), Some(AniseError::DecodeError));
}

#[test]
fn decode_rejects_every_truncation() {
    let bytes = sample_bytes();
    for len in 0..bytes.len() {
        assert_eq!(Metadata::decode(&bytes[..len]).err(), Some(AniseError::DecodeError));
    }
}

#[test]
fn decode_rejects_an_unexpected_tag() {
    for at in [0usize, 5, 8, 11, 14, 21] {
        let mut bytes = sample_bytes();
        bytes[at] = 0x13;
        assert_eq!(Metadata::decode(&bytes).err(), Some(AniseError::DecodeError));
    }
}

#[test]
fn decode_rejects_a_length_that_overruns_the_input() {
    let mut bytes = sample_bytes();
    bytes[22] = 0x01;
    assert_eq!(Metadata::decode(&bytes).err(), Some(AniseError::DecodeError));
    let mut bytes = sample_bytes();
    bytes[15] = 0x7f;
    assert_eq!(Metadata::decode(&bytes).err(), Some(AniseError::DecodeError));
}

#[test]
fn decode_rejects_a_length_that_is_not_in_its_shortest_form() {
    let mut bytes = sample_bytes();
    bytes.truncate(21);
    bytes.extend_from_slice(&[0x0c, 0x81, 0x00]);
    assert_eq!(Metadata::decode(&bytes).err(), Some(AniseError::DecodeError));
    let mut bytes = sample_bytes();
    bytes.truncate(21);
    bytes.extend_from_slice(&[0x0c, 0x80]);
    assert_eq!(Metadata::decode(&bytes).err(), Some(AniseError::DecodeError));
}

#[test]
fn decode_rejects_invalid_utf8() {
    let mut bytes = sample_bytes();
    bytes[16] = 0xff;
    assert_eq!(Metadata::decode(&bytes).err(), Some(AniseError::DecodeError));
}

#[test]
fn decode_rejects_a_version_that_is_not_three_octets() {
    let mut bytes = vec![0x04, 0x02, 0x00, 0x01];
    bytes.extend_from_slice(&sample_bytes()[5..]);
    assert_eq!(Metadata::decode(&bytes).err(), Some(AniseError::DecodeError));
    let mut bytes = vec![0x04, 0x04, 0x00, 0x00, 0x01, 0x00];
    bytes.extend_from_slice(&sample_bytes()[5..]);
    assert_eq!(Metadata::decode(&bytes).err(), Some(AniseError::DecodeError));
}

#[test]
fn decode_rejects_an_unknown_time_scale() {
    let mut bytes = sample_bytes();
    bytes[7] = 0x08;
    assert_eq!(Metadata::decode(&bytes).err(), Some(AniseError::DecodeError));
}

#[test]
fn decode_rejects_integers_out_of_range_or_not_canonical() {
    // A negative time scale.
    let mut bytes = sample_bytes();
    bytes[7] = 0xff;
    assert_eq!(Metadata::decode(&bytes).err(), Some(AniseError::DecodeError));
    // Centuries beyond sixteen bits.
    let mut bytes = sample_bytes()[..8].to_vec();
    bytes.extend_from_slice(&[0x02, 0x03, 0x01, 0x00, 0x00]);
    bytes.extend_from_slice(&sample_bytes()[11..]);
    assert_eq!(Metadata::decode(&bytes).err(), Some(AniseError::DecodeError));
    // Nanoseconds with a redundant leading octet.
    let mut bytes = sample_bytes()[..11].to_vec();
    bytes.extend_from_slice(&[0x02, 0x02, 0x00, 0x7b]);
    bytes.extend_from_slice(&sample_bytes()[14..]);
    assert_eq!(Metadata::decode(&bytes).err(), Some(AniseError::DecodeError));
    // Negative nanoseconds.
    let mut bytes = sample_bytes();
    bytes[13] = 0x80;
    assert_eq!(Metadata::decode(&bytes).err(), Some(AniseError::DecodeError));
}

#[test]
fn integers_are_written_in_their_shortest_form() {
    let m = Metadata {
        creation_date: Epoch {
            time_scale: TimeScale::BDT,
            centuries: -129,
            nanoseconds: u64::MAX,
        },
        ..sample()
    };
    let bytes = encoded(&m);
    assert_eq!(
        &bytes[5..23],
        &[
            0x02, 0x01, 0x07, // BDT
            0x02, 0x02, 0xff, 0x7f, // -129
            0x02, 0x09, 0x00, 0xff, 0xff, 0xff, 0xff, 0xff, 0xff, 0xff, 0xff, // 2^64 - 1
        ]
    );
    let m = Metadata {
        creation_date: Epoch { time_scale: TimeScale::TAI, centuries: 128, nanoseconds: 256 },
        ..sample()
    };
    let bytes = encoded(&m);
    assert_eq!(&bytes[8..16], &[0x02, 0x02, 0x00, 0x80, 0x02, 0x02, 0x01, 0x00]);
}

#[test]
fn long_texts_get_long_lengths() {
    let text = "x".repeat(128);
    let m = Metadata { originator: &text, ..sample() };
    let bytes = encoded(&m);
    assert_eq!(&bytes[14..17], &[0x0c, 0x81, 0x80]);
    let text = "x".repeat(0x1_0000);
    let m = Metadata { originator: &text, ..sample() };
    let bytes = encoded(&m);
    assert_eq!(&bytes[14..19], &[0x0c, 0x83, 0x01, 0x00, 0x00]);
    let (back, n) = Metadata::decode(&bytes).unwrap();
    assert_eq!(n, bytes.len());
    assert_eq!(back.originator, text);
}

#[test]
fn encode_rejects_a_header_that_is_too_long() {
    let text = "x".repeat(MAX_LENGTH - 21);
    let m = Metadata { originator: &text, ..sample() };
    let mut out = vec![1, 2, 3];
    assert_eq!(m.encode(&mut out), Err(AniseError::EncodeError));
    assert_eq!(out, vec![1, 2, 3]);
    assert_eq!(m.encoded_len(), Err(AniseError::EncodeError));
}

#[test]
fn the_longest_header_is_accepted() {
    // 5 + 9 octets of version and date, 6 + n of originator, 2 of URI.
    let text = "x".repeat(MAX_LENGTH - 22);
    let m = Metadata { originator: &text, ..sample() };
    assert_eq!(m.encoded_len(), Ok(MAX_LENGTH));
    let bytes = encoded(&m);
    assert_eq!(bytes.len(), MAX_LENGTH);
    let (back, n) = Metadata::decode(&bytes).unwrap();
    assert_eq!(n, MAX_LENGTH);
    assert_eq!(back.originator.len(), MAX_LENGTH - 22);
}

#[test]
fn decode_rejects_an_input_that_is_too_long() {
    let mut bytes = sample_bytes();
    bytes.resize(MAX_LENGTH + 1, 0);
    assert_eq!(Metadata::decode(&bytes).err(), Some(AniseError::DecodeError));
    bytes.truncate(MAX_LENGTH);
    assert_eq!(Metadata::decode(&bytes).map(|found| found.1), Ok(23));
}

#[test]
fn a_reader_of_major_one_rejects_version_two() {
    let m = Metadata { anise_version: Semver { major: 2, minor: 0, patch: 0 }, ..sample() };
    let supported = Semver { major: 1, minor: 0, patch: 0 };
    let found = Semver { major: 2, minor: 0, patch: 0 };
    assert_eq!(
        m.check_version(supported),
        Err(AniseError::VersionIncompatible { found, supported })
    );
    let bytes = encoded(&m);
    assert_eq!(
        Metadata::decode_compatible(&bytes, supported).err(),
        Some(AniseError::VersionIncompatible { found, supported })
    );
}

#[test]
fn a_reader_accepts_its_own_and_earlier_major_versions() {
    let supported = Semver { major: 1, minor: 0, patch: 0 };
    for version in [
        Semver { major: 0, minor: 9, patch: 9 },
        Semver { major: 1, minor: 0, patch: 0 },
        Semver { major: 1, minor: 200, patch: 7 },
    ] {
        let m = Metadata { anise_version: version, ..sample() };
        assert_eq!(m.check_version(supported), Ok(()));
        let bytes = encoded(&m);
        let (back, n) = Metadata::decode_compatible(&bytes, supported).unwrap();
        assert_eq!(n, bytes.len());
        assert_same(&back, &m);
    }
}

#[test]
fn the_version_is_judged_before_the_rest_is_read() {
    // A later version followed by a layout that this reader does not know.
    let bytes = [0x04, 0x03, 0x02, 0x00, 0x00, 0x30, 0x00];
    let supported = Semver { major: 1, minor: 0, patch: 0 };
    assert_eq!(
        Metadata::decode_compatible(&bytes, supported).err(),
        Some(AniseError::VersionIncompatible {
            found: Semver { major: 2, minor: 0, patch: 0 },
            supported,
        })
    );
    assert_eq!(Metadata::decode(&bytes).err(), Some(AniseError::DecodeError));
    // A version that the reader knows, followed by the same bytes.
    let bytes = [0x04, 0x03, 0x01, 0x00, 0x00, 0x30, 0x00];
    assert_eq!(
        Metadata::decode_compatible(&bytes, supported).err(),
        Some(AniseError::DecodeError)
    );
    assert_eq!(Metadata::decode_compatible(&[], supported).err(), Some(AniseError::DecodeError));
}

#[test]
fn new_stamps_the_given_date() {
    let date = Epoch { time_scale: TimeScale::UTC, centuries: 1, nanoseconds: 42 };
    let m = Metadata::new(date);
    assert_eq!(m.anise_version, anise_version());
    assert_eq!(m.anise_version, Semver { major: 0, minor: 0, patch: 1 });
    assert_eq!(m.creation_date, date);
    assert_eq!(m.originator, "");
    assert_eq!(m.metadata_uri, "");
}

#[test]
fn now_stamps_the_current_time() {
    let m = Metadata::now().unwrap();
    assert_eq!(m.anise_version, anise_version());
    assert_eq!(m.originator, "");
    assert_eq!(m.metadata_uri, "");
    assert_eq!(m.creation_date.time_scale, TimeScale::UTC);
    // The second century after 1900.
    assert_eq!(m.creation_date.centuries, 1);
    let later = Epoch::now().unwrap();
    assert!(later.nanoseconds >= m.creation_date.nanoseconds);
}

#[test]
fn an_unset_originator_is_rendered_as_not_set() {
    let m = Metadata { originator: "", ..sample() };
    let text = m.render_with_date("today");
    let lines: Vec<&str> = text.lines().collect();
    assert_eq!(lines[1], "Originator: (not set)");
    let m = Metadata { originator: "Alice", ..sample() };
    let text = m.render_with_date("today");
    let lines: Vec<&str> = text.lines().collect();
    assert_eq!(lines[1], "Originator: Alice");
}

#[test]
fn render_with_date_gives_four_lines() {
    let text = sample().render_with_date("2000-01-01T00:00:00 UTC");
    assert_eq!(
        text,
        "ANISE version 0.0.1\nOriginator: Alice\nCreation date: 2000-01-01T00:00:00 UTC\nMetadata URI: (not set)\n"
    );
    let m = Metadata {
        anise_version: Semver { major: 12, minor: 0, patch: 255 },
        originator: "",
        metadata_uri: "https://example.org",
        ..sample()
    };
    assert_eq!(
        m.render_with_date(""),
        "ANISE version 12.0.255\nOriginator: (not set)\nCreation date: \nMetadata URI: https://example.org\n"
    );
}

#[test]
fn render_prints_the_date_in_utc() {
    let m = Metadata {
        creation_date: Epoch { time_scale: TimeScale::UTC, centuries: 1, nanoseconds: 0 },
        ..sample()
    };
    // A century of 36525 days after the first day of 1900.
    assert_eq!(
        m.render(),
        "ANISE version 0.0.1\nOriginator: Alice\nCreation date: 2000-01-02T00:00:00 UTC\nMetadata URI: (not set)\n"
    );
    assert_eq!(m.render(), m.render_with_date(&m.creation_date.render()));
}

#[test]
fn epoch_render_follows_the_time_scale() {
    let tai = Epoch { time_scale: TimeScale::TAI, centuries: 0, nanoseconds: 0 };
    assert_eq!(tai.render(), "1900-01-01T00:00:00 UTC");
    let utc = Epoch { time_scale: TimeScale::UTC, centuries: 1, nanoseconds: 1_000_000_000 };
    assert_eq!(utc.render(), "2000-01-02T00:00:01 UTC");
    // In 2000, atomic time was 32 seconds ahead of universal time.
    let tai = Epoch { time_scale: TimeScale::TAI, centuries: 1, nanoseconds: 0 };
    assert_eq!(tai.render(), "2000-01-01T23:59:28 UTC");
    let utc = Epoch { time_scale: TimeScale::UTC, centuries: 1, nanoseconds: 500 };
    assert_eq!(utc.render(), "2000-01-02T00:00:00.000000500 UTC");
}

#[test]
fn epoch_render_accepts_every_instant() {
    let scales = [
        TimeScale::TAI,
        TimeScale::TT,
        TimeScale::ET,
        TimeScale::TDB,
        TimeScale::UTC,
        TimeScale::GPST,
        TimeScale::GST,
        TimeScale::BDT,
    ];
    let centuries = [i16::MIN, i16::MIN + 1, -100, -2, -1, 0, 1, 2, 100, i16::MAX - 1, i16::MAX];
    let nanoseconds =
        [0, 1, 999_999_999, 3_155_759_999_999_999_999, 3_155_760_000_000_000_000, u64::MAX];
    for scale in scales {
        for c in centuries {
            for n in nanoseconds {
                let text = Epoch { time_scale: scale, centuries: c, nanoseconds: n }.render();
                assert!(text.ends_with(" UTC"));
            }
        }
    }
}

#[test]
fn semver_round_trip_and_text() {
    let v = Semver { major: 10, minor: 0, patch: 199 };
    let mut out = Vec::new();
    v.encode(&mut out);
    assert_eq!(out, vec![0x04, 0x03, 10, 0, 199]);
    assert_eq!(Semver::decode(&out), Ok((v, 5)));
    assert_eq!(v.render(), "10.0.199");
    assert_eq!(Semver { major: 0, minor: 9, patch: 100 }.render(), "0.9.100");
    assert_eq!(Semver::decode(&[0x04, 0x03, 1, 2]).err(), Some(AniseError::DecodeError));
}

#[test]
fn epoch_round_trip() {
    let e = Epoch { time_scale: TimeScale::GST, centuries: -32768, nanoseconds: 255 };
    let mut out = Vec::new();
    e.encode(&mut out);
    assert_eq!(out, vec![0x02, 0x01, 0x06, 0x02, 0x02, 0x80, 0x00, 0x02, 0x02, 0x00, 0xff]);
    assert_eq!(Epoch::decode(&out), Ok((e, 11)));
    assert_eq!(Epoch::from_parts(6, -32768, 255), Some(e));
    assert_eq!(Epoch::from_parts(8, 0, 0), None);
}

#[test]
fn versions_are_ordered_by_major_then_minor_then_patch() {
    let mut versions = vec![
        Semver { major: 1, minor: 0, patch: 0 },
        Semver { major: 0, minor: 2, patch: 9 },
        Semver { major: 0, minor: 10, patch: 0 },
        Semver { major: 0, minor: 2, patch: 10 },
        Semver { major: 0, minor: 0, patch: 255 },
    ];
    versions.sort();
    assert_eq!(
        versions,
        vec![
            Semver { major: 0, minor: 0, patch: 255 },
            Semver { major: 0, minor: 2, patch: 9 },
            Semver { major: 0, minor: 2, patch: 10 },
            Semver { major: 0, minor: 10, patch: 0 },
            Semver { major: 1, minor: 0, patch: 0 },
        ]
    );
    assert!(Semver { major: 1, minor: 0, patch: 0 } > Semver { major: 0, minor: 255, patch: 255 });
    assert!(Semver { major: 1, minor: 2, patch: 3 } <= Semver { major: 1, minor: 2, patch: 3 });
}

#[test]
fn the_clock_is_read_in_utc() {
    let now = Epoch::now().unwrap();
    assert_eq!(now.time_scale, TimeScale::UTC);
    assert_eq!(now.time_scale.code(), 4);
    assert!(now.render().ends_with(" UTC"));
    // The instant can be written to a file and read back.
    let mut out = Vec::new();
    now.encode(&mut out);
    assert_eq!(Epoch::decode(&out), Ok((now, out.len())));
}

#[test]
fn dynamical_time_scales_are_rendered_too() {
    for scale in [TimeScale::ET, TimeScale::TDB] {
        let text = Epoch { time_scale: scale, centuries: 0, nanoseconds: 0 }.render();
        assert!(text.starts_with("2000-01-01T11:5"), "{}", text);
        assert!(text.ends_with(" UTC"));
    }
}
