use vstd::prelude::*;

verus! {

/// Angles are held as integers in units of 1e-11 degree.  The scale is chosen
/// so that the sidereal-rate constant 360.98564736629 degrees per day is
/// representable exactly.
pub const ANGLE_UNITS_PER_DEGREE: i64 = 100_000_000_000;

/// One full turn (360 degrees) in angle units.
pub const FULL_TURN: i64 = 36_000_000_000_000;

/// A quarter turn (90 degrees) in angle units.
pub const QUARTER_TURN: i64 = 9_000_000_000_000;

/// Reduce an angle into `[0, FULL_TURN)`, preserving its value modulo one
/// turn.  This is the wrap-around step that keeps every azimuth and sidereal
/// time the pipeline produces inside a single turn.
pub fn normalize_angle(a: i64) -> (r: i64)
    ensures
        0 <= r < FULL_TURN,
        r == a as int % (FULL_TURN as int),
{
    a.checked_rem_euclid(FULL_TURN).unwrap()
}

} // verus!
