use realistic_sun::conversion::{FULL_TURN, HALF_TURN, QUARTER_TURN, UNITS_PER_DEGREE};
use realistic_sun::Environment;

fn normalized(env: &Environment) -> bool {
    -HALF_TURN < env.time_of_day
        && env.time_of_day <= HALF_TURN
        && -HALF_TURN < env.time_of_year
        && env.time_of_year <= HALF_TURN
        && -QUARTER_TURN <= env.latitude
        && env.latitude <= QUARTER_TURN
}

fn sample_states() -> Vec<Environment> {
    vec![
        Environment::default(),
        Environment::default()
            .with_axial_tilt(Environment::AXIAL_TILT_EARTH)
            .with_latitude(Environment::LATITUDE_NEW_JERSEY)
            .with_hours_since_noon(-2),
        Environment::default()
            .with_time_of_day(HALF_TURN)
            .with_date(-HALF_TURN + 1)
            .with_latitude(Environment::LATITUDE_SOUTH_POLE),
        Environment::default()
            .with_time_of_day(-HALF_TURN + 1)
            .with_date(HALF_TURN)
            .with_latitude(Environment::LATITUDE_NORTH_POLE)
            .with_axial_tilt(-7),
    ]
}

#[test]
fn default_is_all_zero() {
    let env = Environment::default();
    assert_eq!(
        env,
        Environment { axial_tilt: 0, latitude: 0, time_of_day: 0, time_of_year: 0 }
    );
    assert!(normalized(&env));
}

#[test]
fn builders_set_one_field_each() {
    let base = Environment { axial_tilt: 1, latitude: 2, time_of_day: 3, time_of_year: 4 };
    assert_eq!(base.with_axial_tilt(9), Environment { axial_tilt: 9, ..base });
    assert_eq!(base.with_latitude(9), Environment { latitude: 9, ..base });
    assert_eq!(base.with_time_of_day(9), Environment { time_of_day: 9, ..base });
    assert_eq!(base.with_date(9), Environment { time_of_year: 9, ..base });
}

#[test]
fn unit_builders_convert() {
    let env = Environment::default()
        .with_axial_tilt_deg(23)
        .with_latitude_deg(30)
        .with_hours_since_noon(-2);
    assert_eq!(env.axial_tilt, 23 * UNITS_PER_DEGREE);
    assert_eq!(env.latitude, 30 * UNITS_PER_DEGREE);
    assert_eq!(env.time_of_day, -30_000_000);
    assert_eq!(env.time_of_year, 0);
}

#[test]
fn builders_store_values_out_of_range() {
    let env = Environment::default().with_latitude_deg(100).with_time_of_day(FULL_TURN);
    assert_eq!(env.latitude, 100 * UNITS_PER_DEGREE);
    assert_eq!(env.time_of_day, FULL_TURN);
}

#[test]
fn presets_are_normalized() {
    for date in [
        Environment::DATE_WINTER,
        Environment::DATE_SPRING,
        Environment::DATE_SUMMER,
        Environment::DATE_AUTUMN,
    ] {
        for time in [Environment::TIME_MIDNIGHT, Environment::TIME_NOON] {
            for latitude in [
                Environment::LATITUDE_EQUATOR,
                Environment::LATITUDE_NORTH_POLE,
                Environment::LATITUDE_SOUTH_POLE,
                Environment::LATITUDE_NEW_JERSEY,
            ] {
                let env = Environment::default()
                    .with_date(date)
                    .with_time_of_day(time)
                    .with_latitude(latitude)
                    .with_axial_tilt(Environment::AXIAL_TILT_EARTH);
                assert!(normalized(&env));
            }
        }
    }
    assert_eq!(Environment::AXIAL_TILT_EARTH, 23_439_281);
    assert_eq!(Environment::LATITUDE_NEW_JERSEY, 40_827_060);
}

#[test]
fn zero_update_keeps_normalized_state() {
    for env in sample_states() {
        let mut updated = env;
        updated.apply_continuous_update(0, 0, 0, 0);
        assert_eq!(updated, env);
    }
}

#[test]
fn full_turn_update_keeps_normalized_state() {
    for env in sample_states() {
        for (d_day, d_year) in [(FULL_TURN, 0), (-FULL_TURN, 0), (0, FULL_TURN), (0, -FULL_TURN)] {
            let mut updated = env;
            updated.apply_continuous_update(d_day, d_year, 0, 0);
            assert_eq!(updated, env);
        }
    }
}

#[test]
fn update_wraps_times() {
    let mut env = Environment::default().with_time_of_day(HALF_TURN - 1).with_date(-HALF_TURN + 1);
    env.apply_continuous_update(2, -2, 0, 0);
    assert_eq!(env.time_of_day, -HALF_TURN + 1);
    assert_eq!(env.time_of_year, HALF_TURN - 1);

    let mut midnight = Environment::default().with_time_of_day(-HALF_TURN);
    midnight.apply_continuous_update(0, 0, 0, 0);
    assert_eq!(midnight.time_of_day, HALF_TURN);

    let mut far = Environment::default().with_time_of_day(i64::MAX).with_date(i64::MIN);
    far.apply_continuous_update(i64::MAX, i64::MIN, 0, 0);
    assert!(normalized(&far));
    let expected_day = ((i64::MAX as i128 * 2).rem_euclid(FULL_TURN as i128)) as i64;
    let expected_day = if expected_day > HALF_TURN { expected_day - FULL_TURN } else { expected_day };
    assert_eq!(far.time_of_day, expected_day);
}

#[test]
fn update_wraps_several_turns() {
    let mut env = Environment::default().with_time_of_day(10);
    env.apply_continuous_update(3 * FULL_TURN + 5, -5 * FULL_TURN - QUARTER_TURN, 0, 0);
    assert_eq!(env.time_of_day, 15);
    assert_eq!(env.time_of_year, -QUARTER_TURN);
}

#[test]
fn huge_latitude_change_stops_at_poles() {
    let mut north = Environment::default().with_latitude(Environment::LATITUDE_NEW_JERSEY);
    north.apply_continuous_update(0, 0, i64::MAX, 0);
    assert_eq!(north.latitude, QUARTER_TURN);
    north.apply_continuous_update(0, 0, 1, 0);
    assert_eq!(north.latitude, QUARTER_TURN);

    let mut south = Environment::default().with_latitude(-Environment::LATITUDE_NEW_JERSEY);
    south.apply_continuous_update(0, 0, i64::MIN, 0);
    assert_eq!(south.latitude, -QUARTER_TURN);
}

#[test]
fn out_of_range_latitude_is_clamped_on_update() {
    let mut env = Environment::default().with_latitude_deg(120);
    env.apply_continuous_update(0, 0, 0, 0);
    assert_eq!(env.latitude, QUARTER_TURN);
    let mut env = Environment::default().with_latitude(i64::MIN);
    env.apply_continuous_update(0, 0, 5, 0);
    assert_eq!(env.latitude, -QUARTER_TURN);
}

#[test]
fn axial_tilt_is_not_clamped() {
    let mut env = Environment::default().with_axial_tilt(QUARTER_TURN);
    env.apply_continuous_update(0, 0, 0, FULL_TURN);
    assert_eq!(env.axial_tilt, QUARTER_TURN + FULL_TURN);
    env.apply_continuous_update(0, 0, 0, -3 * FULL_TURN);
    assert_eq!(env.axial_tilt, QUARTER_TURN - 2 * FULL_TURN);
}

#[test]
fn small_step_update_adds_changes() {
    let mut env = Environment::default()
        .with_axial_tilt(Environment::AXIAL_TILT_EARTH)
        .with_latitude(Environment::LATITUDE_NEW_JERSEY)
        .with_hours_since_noon(-2);
    env.apply_continuous_update(1_000, -2_000, 3_000, -4_000);
    assert_eq!(env.time_of_day, -30_000_000 + 1_000);
    assert_eq!(env.time_of_year, -2_000);
    assert_eq!(env.latitude, 40_827_060 + 3_000);
    assert_eq!(env.axial_tilt, 23_439_281 - 4_000);
}
