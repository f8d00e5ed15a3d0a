use anise::naif::hash_name;
use anise::prelude::{
    AniseError, CelestialFrame, CelestialFrameTrait, Context, Ellipsoid, Frame, FrameTrait,
    GeodeticFrame, GeodeticFrameTrait, PlanetaryConstants, Scalar,
};

fn scalar(value: f64) -> Scalar {
    Scalar::from_bits(value.to_bits())
}

fn value(scalar: Scalar) -> f64 {
    f64::from_bits(scalar.to_bits())
}

fn earth_shape() -> Ellipsoid {
    Ellipsoid {
        semi_major_equatorial_radius_km: scalar(6378.1366),
        mean_equatorial_radius_km: scalar(6378.1366),
        flattening: scalar(0.0033528),
    }
}

fn earth() -> PlanetaryConstants {
    PlanetaryConstants {
        mu_km3_s2: scalar(398600.4418),
        shape: Some(earth_shape()),
        angular_velocity_deg: scalar(0.0041780746),
    }
}

fn store() -> Context {
    let mut store = Context::new();
    store.register("Earth", earth()).unwrap();
    store
        .register(
            "Mars",
            PlanetaryConstants {
                mu_km3_s2: scalar(42828.37),
                shape: None,
                angular_velocity_deg: scalar(0.0040612497),
            },
        )
        .unwrap();
    store
}

#[test]
fn the_naming_scheme_is_a_polynomial_hash() {
    assert_eq!(hash_name(""), 0);
    assert_eq!(hash_name("A"), 65);
    assert_eq!(hash_name("AB"), 65 * 31 + 66);
    assert_eq!(hash_name("Earth"), 66_725_930);
    // Reduced modulo 2^31.
    assert_eq!(hash_name("IAU_EARTH"), 1_579_760_552);
    assert_eq!(hash_name("é"), 0xc3 * 31 + 0xa9);
    assert!(hash_name("a rather long name of a frame, longer than four bytes") >= 0);
}

#[test]
fn frames_are_equal_when_both_identifiers_are() {
    let a = Frame::from_ephemeris_orientation_names("Earth", "IAU_EARTH");
    let b = Frame { ephemeris_hash: hash_name("Earth"), orientation_hash: hash_name("IAU_EARTH") };
    assert_eq!(a, b);
    assert_eq!(a.ephemeris_hash(), 66_725_930);
    assert_eq!(a.orientation_hash(), 1_579_760_552);
    assert_ne!(a, Frame::from_ephemeris_orientation_names("Earth", "J2000"));
    assert_ne!(a, Frame::from_ephemeris_orientation_names("Moon", "IAU_EARTH"));
    assert_ne!(a, Frame::from_ephemeris_orientation_names("earth", "IAU_EARTH"));
}

#[test]
fn resolving_earth_gives_its_constants() {
    let frame = store().geodetic_frame("Earth", "IAU_EARTH").unwrap();
    assert_eq!(value(frame.mu_km3_s2()), 398600.4418);
    assert_eq!(value(frame.semi_major_radius_km()), 6378.1366);
    assert_eq!(value(frame.flattening()), 0.0033528);
    assert_eq!(value(frame.angular_velocity_deg_s()), 0.0041780746);
    assert_eq!(value(frame.mean_equatorial_radius_km()), 6378.1366);
    assert_eq!(frame.ephemeris_hash(), hash_name("Earth"));
    assert_eq!(frame.orientation_hash(), hash_name("IAU_EARTH"));
}

#[test]
fn resolving_a_record_without_shape_fails() {
    assert_eq!(
        store().geodetic_frame("Mars", "IAU_MARS"),
        Err(AniseError::ParameterNotSpecified {
            name: "Mars".to_string(),
            parameter: "shape".to_string(),
        })
    );
}

#[test]
fn resolving_a_missing_record_fails() {
    assert_eq!(
        store().geodetic_frame("Pluto", "IAU_PLUTO"),
        Err(AniseError::NotFound { name: "Pluto".to_string() })
    );
    assert_eq!(
        Context::new().geodetic_frame("Earth", "IAU_EARTH"),
        Err(AniseError::NotFound { name: "Earth".to_string() })
    );
}

#[test]
fn names_are_matched_as_they_are_written() {
    for name in ["earth", "EARTH", "Earth ", " Earth", "Eart", "Earth\0", ""] {
        assert_eq!(
            store().geodetic_frame(name, "IAU_EARTH"),
            Err(AniseError::NotFound { name: name.to_string() })
        );
    }
}

#[test]
fn constants_can_come_from_a_record_of_another_name() {
    let store = store();
    let frame = store.geodetic_frame_from("Orbiter", "IAU_EARTH", "Earth").unwrap();
    assert_eq!(frame.ephemeris_hash(), hash_name("Orbiter"));
    assert_eq!(frame.orientation_hash(), hash_name("IAU_EARTH"));
    assert_eq!(value(frame.mu_km3_s2()), 398600.4418);
    assert_eq!(frame.shape, earth_shape());
    assert_eq!(
        store.geodetic_frame_from("Earth", "IAU_EARTH", "Orbiter"),
        Err(AniseError::NotFound { name: "Orbiter".to_string() })
    );
    assert_eq!(
        store.geodetic_frame_from("Earth", "IAU_EARTH", "Mars"),
        Err(AniseError::ParameterNotSpecified {
            name: "Mars".to_string(),
            parameter: "shape".to_string(),
        })
    );
    assert_eq!(
        store.geodetic_frame("Earth", "IAU_EARTH"),
        store.geodetic_frame_from("Earth", "IAU_EARTH", "Earth")
    );
}

#[test]
fn the_store_returns_what_was_registered() {
    let store = store();
    assert_eq!(store.planetary_constants_from_name("Earth"), Ok(earth()));
    assert_eq!(store.planetary_constants_from_name("Mars").unwrap().shape, None);
    assert_eq!(
        store.planetary_constants_from_name("Venus"),
        Err(AniseError::NotFound { name: "Venus".to_string() })
    );
}

#[test]
fn a_name_is_registered_once() {
    let mut store = store();
    let other = PlanetaryConstants { mu_km3_s2: scalar(1.0), ..earth() };
    assert_eq!(
        store.register("Earth", other),
        Err(AniseError::HashCollision {
            name: "Earth".to_string(),
            registered: "Earth".to_string(),
        })
    );
    assert_eq!(store.planetary_constants_from_name("Earth"), Ok(earth()));
}

#[test]
fn a_name_with_the_identifier_of_another_is_rejected() {
    // 'a' * 31 + 'B' == 'b' * 31 + '#'.
    assert_eq!(hash_name("aB"), hash_name("b#"));
    let mut store = Context::new();
    assert_eq!(store.register("aB", earth()), Ok(()));
    assert_eq!(
        store.register("b#", earth()),
        Err(AniseError::HashCollision { name: "b#".to_string(), registered: "aB".to_string() })
    );
    assert_eq!(
        store.planetary_constants_from_name("b#"),
        Err(AniseError::NotFound { name: "b#".to_string() })
    );
    assert_eq!(store.planetary_constants_from_name("aB"), Ok(earth()));
}

#[test]
fn narrowing_keeps_the_identity() {
    let geodetic = store().geodetic_frame("Earth", "IAU_EARTH").unwrap();
    let frame: Frame = geodetic.into();
    assert_eq!(frame, geodetic.celestial_frame.frame);
    assert_eq!(frame.ephemeris_hash, geodetic.celestial_frame.frame.ephemeris_hash);
    assert_eq!(frame.orientation_hash, geodetic.celestial_frame.frame.orientation_hash);
    assert_eq!(frame, Frame::from(geodetic));
    assert_eq!(frame, Frame::from_ephemeris_orientation_names("Earth", "IAU_EARTH"));
}

#[test]
fn every_layer_answers_with_the_layer_below() {
    let geodetic = GeodeticFrame {
        celestial_frame: CelestialFrame {
            frame: Frame { ephemeris_hash: -7, orientation_hash: 399 },
            mu_km3_s2: scalar(4902.800066),
        },
        shape: Ellipsoid {
            semi_major_equatorial_radius_km: scalar(1737.4),
            mean_equatorial_radius_km: scalar(1737.3),
            flattening: scalar(0.0012),
        },
        angular_velocity_deg: scalar(-0.00015),
    };
    assert_eq!(geodetic.ephemeris_hash(), geodetic.celestial_frame.ephemeris_hash());
    assert_eq!(geodetic.orientation_hash(), geodetic.celestial_frame.orientation_hash());
    assert_eq!(geodetic.celestial_frame.ephemeris_hash(), -7);
    assert_eq!(geodetic.celestial_frame.orientation_hash(), 399);
    assert_eq!(geodetic.mu_km3_s2(), geodetic.celestial_frame.mu_km3_s2());
    assert_eq!(value(geodetic.mu_km3_s2()), 4902.800066);
    assert_eq!(geodetic.mean_equatorial_radius_km(), geodetic.shape.mean_equatorial_radius_km());
    assert_eq!(value(geodetic.mean_equatorial_radius_km()), 1737.3);
    assert_eq!(value(geodetic.semi_major_radius_km()), 1737.4);
    assert_eq!(geodetic.flattening(), geodetic.shape.flattening());
    assert_eq!(value(geodetic.flattening()), 0.0012);
    assert_eq!(value(geodetic.angular_velocity_deg_s()), -0.00015);
}

#[test]
fn a_quantity_keeps_its_bits() {
    for bits in [0u64, 1, 0x8000_0000_0000_0000, 0x7ff8_0000_0000_0001, u64::MAX] {
        assert_eq!(Scalar::from_bits(bits).to_bits(), bits);
    }
    assert_eq!(value(scalar(-0.0)).to_bits(), (-0.0f64).to_bits());
    assert_ne!(scalar(0.0), scalar(-0.0));
}

#[test]
fn signs_are_read_from_the_bits() {
    let samples = [
        0.0,
        -0.0,
        1.0,
        -1.0,
        f64::MIN_POSITIVE,
        -f64::MIN_POSITIVE,
        5e-324,
        -5e-324,
        f64::MAX,
        f64::MIN,
        f64::INFINITY,
        f64::NEG_INFINITY,
        f64::NAN,
        -f64::NAN,
        398600.4418,
        -0.0041780746,
    ];
    for x in samples {
        let q = scalar(x);
        assert_eq!(q.is_nan(), x.is_nan(), "{}", x);
        assert_eq!(q.is_positive(), x > 0.0, "{}", x);
        assert_eq!(q.is_non_negative(), x >= 0.0, "{}", x);
    }
    for bits in [0x7ff0_0000_0000_0001u64, 0x7fff_ffff_ffff_ffff, 0xfff0_0000_0000_0001, u64::MAX] {
        let q = Scalar::from_bits(bits);
        assert!(q.is_nan());
        assert!(!q.is_positive());
        assert!(!q.is_non_negative());
    }
}

#[test]
fn a_frame_of_a_body_has_no_negative_mu_and_positive_radii() {
    let frame = store().geodetic_frame("Earth", "IAU_EARTH").unwrap();
    assert!(earth().is_valid());
    assert!(frame.is_valid());
    assert!(frame.celestial_frame.is_valid());
    assert!(frame.shape.is_valid());

    let negative_mu = PlanetaryConstants { mu_km3_s2: scalar(-1.0), ..earth() };
    assert!(!negative_mu.is_valid());
    let no_mu = PlanetaryConstants { mu_km3_s2: scalar(f64::NAN), ..earth() };
    assert!(!no_mu.is_valid());
    let massless = PlanetaryConstants { mu_km3_s2: scalar(0.0), shape: None, ..earth() };
    assert!(massless.is_valid());

    let flat = Ellipsoid { semi_major_equatorial_radius_km: scalar(0.0), ..earth_shape() };
    assert!(!flat.is_valid());
    let inside_out = Ellipsoid { mean_equatorial_radius_km: scalar(-6378.0), ..earth_shape() };
    assert!(!inside_out.is_valid());
    assert!(!PlanetaryConstants { shape: Some(flat), ..earth() }.is_valid());

    let backwards = GeodeticFrame { angular_velocity_deg: scalar(-0.004), ..frame };
    assert!(backwards.is_valid());
    let mut bad = frame;
    bad.celestial_frame.mu_km3_s2 = scalar(-398600.4418);
    assert!(!bad.is_valid());
    assert!(!CelestialFrame { mu_km3_s2: scalar(-0.1), ..frame.celestial_frame }.is_valid());
}
