//! The [`Environment`] value and its update rules.
use vstd::prelude::*;

use crate::conversion::{
    angle_of_degrees, angle_of_hours, deg_to_angle, hours_to_angle, FULL_TURN, HALF_TURN,
    MAX_DEGREES, MAX_HOURS, QUARTER_TURN,
};

verus! {

/// The values that decide where the sun light points.
///
/// Every field is an angle in whole microdegrees (see [`crate::conversion`]).
/// The builder methods store what they are given; [`Environment::apply_continuous_update`]
/// is the step that keeps the values in range: it wraps the two times of the
/// cycle into (-half turn, half turn] and clamps the latitude to the poles.
#[derive(Clone, Copy, Debug, PartialEq, Eq, Structural)]
pub struct Environment {
    /// Axial tilt of the planet. Never clamped.
    pub axial_tilt: i64,
    /// Latitude: 0 is the equator, a quarter turn the north pole and minus a
    /// quarter turn the south pole.
    pub latitude: i64,
    /// Time of day: 0 is local solar noon, a half turn midnight. Increasing
    /// values go forward in time.
    pub time_of_day: i64,
    /// Time of year: 0 is the summer solstice, a half turn the winter
    /// solstice. Increasing values go forward in time.
    pub time_of_year: i64,
}

/// The angle in (-half turn, half turn] that differs from `a` by whole turns.
pub open spec fn wrap_angle(a: int) -> int {
    let r = a % (FULL_TURN as int);
    if r > HALF_TURN {
        r - FULL_TURN
    } else {
        r
    }
}

/// `a` clamped to the range from the south pole to the north pole.
pub open spec fn clamp_latitude(a: int) -> int {
    if a < -QUARTER_TURN {
        -QUARTER_TURN as int
    } else if a > QUARTER_TURN {
        QUARTER_TURN as int
    } else {
        a
    }
}

/// The angle in (-half turn, half turn] that differs from `a` by whole turns.
fn wrap(a: i128) -> (r: i64)
    ensures
        r == wrap_angle(a as int),
{
    let full: i128 = FULL_TURN as i128;
    match a.checked_rem_euclid(full) {
        Some(m) => {
            if m > HALF_TURN as i128 {
                (m - full) as i64
            } else {
                m as i64
            }
        },
        None => 0,
    }
}

/// `a` clamped to the range from the south pole to the north pole.
fn clamp_to_poles(a: i128) -> (r: i64)
    ensures
        r == clamp_latitude(a as int),
{
    if a < -(QUARTER_TURN as i128) {
        -QUARTER_TURN
    } else if a > QUARTER_TURN as i128 {
        QUARTER_TURN
    } else {
        a as i64
    }
}

impl Environment {
    /// Earth's axial tilt, 23.439281 degrees.
    pub const AXIAL_TILT_EARTH: i64 = 23_439_281;

    /// Time of day at local solar midnight.
    pub const TIME_MIDNIGHT: i64 = HALF_TURN;

    /// Time of day at local solar noon.
    pub const TIME_NOON: i64 = 0;

    /// Latitude of a place in New Jersey, 40.82706 degrees north.
    pub const LATITUDE_NEW_JERSEY: i64 = 40_827_060;

    /// Latitude of the equator.
    pub const LATITUDE_EQUATOR: i64 = 0;

    /// Latitude of the north pole.
    pub const LATITUDE_NORTH_POLE: i64 = QUARTER_TURN;

    /// Latitude of the south pole.
    pub const LATITUDE_SOUTH_POLE: i64 = -QUARTER_TURN;

    /// Time of year at the winter solstice, when the sun is lowest.
    pub const DATE_WINTER: i64 = HALF_TURN;

    /// Time of year halfway from the winter to the summer solstice.
    pub const DATE_SPRING: i64 = -QUARTER_TURN;

    /// Time of year at the summer solstice, when the sun is highest.
    pub const DATE_SUMMER: i64 = 0;

    /// Time of year halfway from the summer to the winter solstice.
    pub const DATE_AUTUMN: i64 = QUARTER_TURN;

    /// The two times lie in (-half turn, half turn] and the latitude lies
    /// between the poles. The axial tilt is not bounded.
    pub open spec fn is_normalized(self) -> bool {
        &&& -HALF_TURN < self.time_of_day <= HALF_TURN
        &&& -HALF_TURN < self.time_of_year <= HALF_TURN
        &&& -QUARTER_TURN <= self.latitude <= QUARTER_TURN
    }

    /// The environment after one continuous update with the given changes.
    pub open spec fn after_update(
        self,
        d_time_of_day: int,
        d_time_of_year: int,
        d_latitude: int,
        d_axial_tilt: int,
    ) -> Environment {
        Environment {
            axial_tilt: (self.axial_tilt + d_axial_tilt) as i64,
            latitude: clamp_latitude(self.latitude + d_latitude) as i64,
            time_of_day: wrap_angle(self.time_of_day + d_time_of_day) as i64,
            time_of_year: wrap_angle(self.time_of_year + d_time_of_year) as i64,
        }
    }

    /// Adds each change to its field, then wraps both times into
    /// (-half turn, half turn] and clamps the latitude to the poles. The axial
    /// tilt is left as the sum.
    ///
    /// For a normalized environment and changes of at most a full turn, the
    /// wrap is a single correction by a full turn (see [`lemma_wrap_single_correction`]).
    pub fn apply_continuous_update(
        &mut self,
        d_time_of_day: i64,
        d_time_of_year: i64,
        d_latitude: i64,
        d_axial_tilt: i64,
    )
        requires
            i64::MIN <= old(self).axial_tilt + d_axial_tilt <= i64::MAX,
        ensures
            *final(self) == old(self).after_update(
                d_time_of_day as int,
                d_time_of_year as int,
                d_latitude as int,
                d_axial_tilt as int,
            ),
            final(self).is_normalized(),
    {
        self.time_of_day = wrap(self.time_of_day as i128 + d_time_of_day as i128);
        self.time_of_year = wrap(self.time_of_year as i128 + d_time_of_year as i128);
        self.latitude = clamp_to_poles(self.latitude as i128 + d_latitude as i128);
        self.axial_tilt = self.axial_tilt + d_axial_tilt;
    }

    /// Sets the axial tilt.
    pub fn with_axial_tilt(self, axial_tilt: i64) -> (r: Self)
        ensures
            r == (Environment { axial_tilt, ..self }),
    {
        Environment { axial_tilt, ..self }
    }

    /// Sets the axial tilt in whole degrees.
    pub fn with_axial_tilt_deg(self, axial_tilt: i64) -> (r: Self)
        requires
            -MAX_DEGREES <= axial_tilt <= MAX_DEGREES,
        ensures
            r == (Environment { axial_tilt: angle_of_degrees(axial_tilt as int) as i64, ..self }),
    {
        self.with_axial_tilt(deg_to_angle(axial_tilt))
    }

    /// Sets the time of year.
    pub fn with_date(self, date: i64) -> (r: Self)
        ensures
            r == (Environment { time_of_year: date, ..self }),
    {
        Environment { time_of_year: date, ..self }
    }

    /// Sets the latitude.
    pub fn with_latitude(self, latitude: i64) -> (r: Self)
        ensures
            r == (Environment { latitude, ..self }),
    {
        Environment { latitude, ..self }
    }

    /// Sets the latitude in whole degrees.
    pub fn with_latitude_deg(self, latitude: i64) -> (r: Self)
        requires
            -MAX_DEGREES <= latitude <= MAX_DEGREES,
        ensures
            r == (Environment { latitude: angle_of_degrees(latitude as int) as i64, ..self }),
    {
        self.with_latitude(deg_to_angle(latitude))
    }

    /// Sets the time of day.
    pub fn with_time_of_day(self, time_of_day: i64) -> (r: Self)
        ensures
            r == (Environment { time_of_day, ..self }),
    {
        Environment { time_of_day, ..self }
    }

    /// Sets the time of day in whole hours since local solar noon; negative
    /// hours are before noon.
    pub fn with_hours_since_noon(self, time_of_day: i64) -> (r: Self)
        requires
            -MAX_HOURS <= time_of_day <= MAX_HOURS,
        ensures
            r == (Environment { time_of_day: angle_of_hours(time_of_day as int) as i64, ..self }),
    {
        self.with_time_of_day(hours_to_angle(time_of_day))
    }
}

impl Default for Environment {
    /// Equator, solar noon, summer solstice and no axial tilt.
    fn default() -> (r: Self)
        ensures
            r == (Environment { axial_tilt: 0, latitude: 0, time_of_day: 0, time_of_year: 0 }),
            r.is_normalized(),
    {
        Environment { axial_tilt: 0, latitude: 0, time_of_day: 0, time_of_year: 0 }
    }
}

/// For an angle in (-half turn, half turn] and a change of at most a full
/// turn, wrapping the sum is a single correction by a full turn.
pub proof fn lemma_wrap_single_correction(a: int, d: int)
    requires
        -HALF_TURN < a <= HALF_TURN,
        -FULL_TURN <= d <= FULL_TURN,
    ensures
        wrap_angle(a + d) == if a + d > HALF_TURN {
            a + d - FULL_TURN
        } else if a + d <= -HALF_TURN {
            a + d + FULL_TURN
        } else {
            a + d
        },
{
    let s = a + d;
    let f = FULL_TURN as int;
    if s >= f {
        vstd::arithmetic::div_mod::lemma_fundamental_div_mod_converse(s, f, 1, s - f);
    } else if s >= 0 {
        vstd::arithmetic::div_mod::lemma_fundamental_div_mod_converse(s, f, 0, s);
    } else if s >= -f {
        vstd::arithmetic::div_mod::lemma_fundamental_div_mod_converse(s, f, -1, s + f);
    } else {
        vstd::arithmetic::div_mod::lemma_fundamental_div_mod_converse(s, f, -2, s + 2 * f);
    }
}

/// An update with no change leaves a normalized environment as it is.
pub proof fn lemma_zero_update_is_identity(env: Environment)
    requires
        env.is_normalized(),
    ensures
        env.after_update(0, 0, 0, 0) == env,
{
    lemma_wrap_single_correction(env.time_of_day as int, 0);
    lemma_wrap_single_correction(env.time_of_year as int, 0);
}

/// Moving either time of a normalized environment by a whole turn, forwards
/// or backwards, leaves the environment as it is.
pub proof fn lemma_full_turn_update_is_identity(env: Environment)
    requires
        env.is_normalized(),
    ensures
        env.after_update(FULL_TURN as int, 0, 0, 0) == env,
        env.after_update(-FULL_TURN, 0, 0, 0) == env,
        env.after_update(0, FULL_TURN as int, 0, 0) == env,
        env.after_update(0, -FULL_TURN, 0, 0) == env,
{
    lemma_wrap_single_correction(env.time_of_day as int, 0);
    lemma_wrap_single_correction(env.time_of_year as int, 0);
    lemma_wrap_single_correction(env.time_of_day as int, FULL_TURN as int);
    lemma_wrap_single_correction(env.time_of_year as int, FULL_TURN as int);
    lemma_wrap_single_correction(env.time_of_day as int, -FULL_TURN);
    lemma_wrap_single_correction(env.time_of_year as int, -FULL_TURN);
}

/// A latitude change that would pass a pole stops exactly at that pole.
pub proof fn lemma_latitude_stops_at_poles(env: Environment, d_latitude: int)
    ensures
        env.latitude + d_latitude >= QUARTER_TURN ==> env.after_update(
            0,
            0,
            d_latitude,
            0,
        ).latitude == QUARTER_TURN,
        env.latitude + d_latitude <= -QUARTER_TURN ==> env.after_update(
            0,
            0,
            d_latitude,
            0,
        ).latitude == -QUARTER_TURN,
{
}

} // verus!
