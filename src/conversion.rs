//! Units of angle and the conversions between them.
//!
//! An angle is a whole number of microdegrees: a full turn is
//! [`FULL_TURN`] units, one degree [`UNITS_PER_DEGREE`] units and one hour of
//! the daily rotation [`UNITS_PER_HOUR`] units.
use vstd::prelude::*;

verus! {

/// Units in one degree.
pub const UNITS_PER_DEGREE: i64 = 1_000_000;

/// Units in one hour of the daily rotation (a turn is 24 hours).
pub const UNITS_PER_HOUR: i64 = 15_000_000;

/// Units in a full turn (2π radians).
pub const FULL_TURN: i64 = 360_000_000;

/// Units in half a turn (π radians).
pub const HALF_TURN: i64 = 180_000_000;

/// Units in a quarter turn (π/2 radians).
pub const QUARTER_TURN: i64 = 90_000_000;

/// Largest number of whole degrees whose angle fits in an `i64`.
pub const MAX_DEGREES: i64 = 9_223_372_036_854;

/// Largest number of whole hours whose angle fits in an `i64`.
pub const MAX_HOURS: i64 = 614_891_469_123;

/// The angle of `deg` degrees.
pub open spec fn angle_of_degrees(deg: int) -> int {
    deg * UNITS_PER_DEGREE
}

/// The whole degrees in angle `a`, rounded down.
pub open spec fn degrees_of_angle(a: int) -> int {
    a / (UNITS_PER_DEGREE as int)
}

/// The angle of `hours` hours of the daily rotation.
pub open spec fn angle_of_hours(hours: int) -> int {
    hours * UNITS_PER_HOUR
}

/// The whole hours of the daily rotation in angle `a`, rounded down.
pub open spec fn hours_of_angle(a: int) -> int {
    a / (UNITS_PER_HOUR as int)
}

/// Converts whole degrees to an angle.
pub fn deg_to_angle(deg: i64) -> (r: i64)
    requires
        -MAX_DEGREES <= deg <= MAX_DEGREES,
    ensures
        r == angle_of_degrees(deg as int),
{
    deg * UNITS_PER_DEGREE
}

/// Converts whole hours of the daily rotation to an angle.
pub fn hours_to_angle(hours: i64) -> (r: i64)
    requires
        -MAX_HOURS <= hours <= MAX_HOURS,
    ensures
        r == angle_of_hours(hours as int),
{
    hours * UNITS_PER_HOUR
}

/// Converts an angle to whole degrees, rounding down.
pub fn angle_to_deg(a: i64) -> (r: i64)
    ensures
        r == degrees_of_angle(a as int),
{
    match a.checked_div_euclid(UNITS_PER_DEGREE) {
        Some(q) => q,
        None => 0,
    }
}

/// Converts an angle to whole hours of the daily rotation, rounding down.
pub fn angle_to_hours(a: i64) -> (r: i64)
    ensures
        r == hours_of_angle(a as int),
{
    match a.checked_div_euclid(UNITS_PER_HOUR) {
        Some(q) => q,
        None => 0,
    }
}

/// Degrees converted to an angle and back are the degrees given.
pub proof fn lemma_degrees_round_trip(deg: int)
    ensures
        degrees_of_angle(angle_of_degrees(deg)) == deg,
{
    vstd::arithmetic::div_mod::lemma_div_multiples_vanish(deg, UNITS_PER_DEGREE as int);
}

/// Hours converted to an angle and back are the hours given.
pub proof fn lemma_hours_round_trip(hours: int)
    ensures
        hours_of_angle(angle_of_hours(hours)) == hours,
{
    vstd::arithmetic::div_mod::lemma_div_multiples_vanish(hours, UNITS_PER_HOUR as int);
}

/// An angle converted to whole degrees and back loses less than one degree.
pub proof fn lemma_angle_degrees_round_trip(a: int)
    ensures
        angle_of_degrees(degrees_of_angle(a)) <= a < angle_of_degrees(degrees_of_angle(a))
            + UNITS_PER_DEGREE,
{
    vstd::arithmetic::div_mod::lemma_fundamental_div_mod(a, UNITS_PER_DEGREE as int);
}

/// An angle converted to whole hours and back loses less than one hour.
pub proof fn lemma_angle_hours_round_trip(a: int)
    ensures
        angle_of_hours(hours_of_angle(a)) <= a < angle_of_hours(hours_of_angle(a))
            + UNITS_PER_HOUR,
{
    vstd::arithmetic::div_mod::lemma_fundamental_div_mod(a, UNITS_PER_HOUR as int);
}

} // verus!
