use earth_distance_game::geo::{
    score, AngleUnit, Coord, ScoreError, DEGREE_ROUND_TRIP_SLACK, EARTH_CIRCUMFERENCE_M,
    FULL_SCORE,
};

const S: i128 = 1_000_000_000_000_000;

#[test]
fn new_coord_is_in_degrees() {
    let c = Coord::new(1_352_100 * S / 1_000_000, 103_819_800 * S / 1_000_000);
    assert_eq!(c.latitude, 1_352_100_000_000_000);
    assert_eq!(c.longitude, 103_819_800_000_000_000);
    assert_eq!(c.type_, AngleUnit::Degrees);
}

#[test]
fn degrees_convert_to_radians() {
    let c = Coord::new(180 * S, -90 * S).change_unit();
    assert_eq!(c.type_, AngleUnit::Radians);
    // pi and -pi/2, each within 1e-15 rad
    assert_eq!(c.latitude, 3_141_592_653_589_793);
    assert_eq!(c.longitude, -1_570_796_326_794_897);
    let lat = c.latitude as f64 / S as f64;
    let lon = c.longitude as f64 / S as f64;
    assert!((lat - std::f64::consts::PI).abs() <= 1e-12);
    assert!((lon + std::f64::consts::FRAC_PI_2).abs() <= 1e-12);
}

#[test]
fn conversion_matches_to_radians() {
    let c = Coord::new(51_507_200_000_000_000, -127_600_000_000_000).change_unit();
    assert!((c.latitude as f64 / S as f64 - 51.5072f64.to_radians()).abs() <= 1e-12);
    assert!((c.longitude as f64 / S as f64 - (-0.1276f64).to_radians()).abs() <= 1e-12);
}

#[test]
fn radians_convert_to_degrees() {
    let c = Coord { latitude: S, longitude: 0, type_: AngleUnit::Radians }.change_unit();
    assert_eq!(c.type_, AngleUnit::Degrees);
    assert_eq!(c.latitude, 57_295_779_513_082_325);
    assert_eq!(c.longitude, 0);
}

#[test]
fn extreme_degrees_convert() {
    let c = Coord::new(i128::MAX, i128::MIN).change_unit();
    assert_eq!(c.latitude, 2_969_523_844_624_907_407_541_799_056_877_378_644);
    assert_eq!(c.longitude, -2_969_523_844_624_907_407_541_799_056_877_378_644);
}

#[test]
fn round_trip_from_degrees_stays_close() {
    for (lat, lon) in [
        (1_352_100_000_000_000i128, 103_819_800_000_000_000i128),
        (51_507_200_000_000_000, -127_600_000_000_000),
        (90 * S, -180 * S),
        (0, 0),
    ] {
        let c = Coord::new(lat, lon);
        let back = c.change_unit().change_unit();
        assert_eq!(back.type_, AngleUnit::Degrees);
        assert!((back.latitude - lat).abs() <= DEGREE_ROUND_TRIP_SLACK);
        assert!((back.longitude - lon).abs() <= DEGREE_ROUND_TRIP_SLACK);
    }
    let back = Coord::new(51_507_200_000_000_000, -127_600_000_000_000).change_unit().change_unit();
    assert_eq!(back.latitude, 51_507_199_999_999_985);
    assert_eq!(back.longitude, -127_600_000_000_014);
}

#[test]
fn round_trip_from_radians_is_exact() {
    let c = Coord { latitude: 23_598_596_816_215, longitude: -1_811_997_338_762_009, type_: AngleUnit::Radians };
    assert_eq!(c.change_unit().change_unit(), c);
}

#[test]
fn exact_guess_scores_full() {
    assert_eq!(score(0, Some(2_000_000)), Ok(FULL_SCORE));
    assert_eq!(score(0, Some(1)), Ok(100_000));
    assert_eq!(score(0, None), Ok(100_000));
}

#[test]
fn small_error_scores_just_below_full() {
    assert_eq!(score(-290, Some(2_000_000)), Ok(99_992));
    assert_eq!(score(290, Some(2_000_000)), Ok(99_992));
}

#[test]
fn error_at_bound_scores_zero() {
    // bound = min(2 * radius, circumference / 2) = 4000 km
    assert_eq!(score(4_000_000, Some(2_000_000)), Ok(0));
    assert_eq!(score(-4_000_000, Some(2_000_000)), Ok(0));
    assert_eq!(score(i64::MIN, Some(2_000_000)), Ok(0));
    assert_eq!(score(3_999_960, Some(2_000_000)), Ok(1));
}

#[test]
fn large_radius_is_capped_at_half_circumference() {
    assert_eq!(score(10_018_754, Some(20_000_000)), Ok(50_000));
    assert_eq!(score(10_018_754, None), Ok(50_000));
    assert_eq!(score(EARTH_CIRCUMFERENCE_M as i64 / 2 + 1, Some(u64::MAX)), Ok(0));
}

#[test]
fn zero_radius_is_a_configuration_error() {
    assert_eq!(score(0, Some(0)), Err(ScoreError::ZeroRadius));
    assert_eq!(score(1_000, Some(0)), Err(ScoreError::ZeroRadius));
}

#[test]
fn score_does_not_rise_with_error() {
    let mut last = FULL_SCORE;
    for off in [0i64, 1, 10, 1_000, 100_000, 1_000_000, 3_000_000, 4_000_000] {
        let s = score(off, Some(2_000_000)).unwrap();
        assert!(s <= last);
        assert!(s <= FULL_SCORE);
        last = s;
    }
}
