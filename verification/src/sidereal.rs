use vstd::prelude::*;
use crate::angle::{FULL_TURN, normalize_angle};

verus! {

/// Greenwich mean sidereal time at the J2000 epoch (JD 2451545.0):
/// 280.46061837 degrees, in angle units of 1e-11 degree.
pub const GMST_AT_J2000: i64 = 28_046_061_837_000;

/// Sidereal advance per day: 360.98564736629 degrees, in angle units.
pub const GMST_RATE_PER_DAY: i64 = 36_098_564_736_629;

/// Times are held in microdays (1e-6 day) relative to the J2000 epoch.
pub const MICRODAYS_PER_DAY: i64 = 1_000_000;

/// Greenwich mean sidereal time, in angle units in `[0, FULL_TURN)`, for a
/// time given in microdays since J2000.  This is the linear low-precision
/// model `280.46061837 + 360.98564736629 * d` degrees reduced modulo 360,
/// evaluated exactly at microday resolution and floored to an angle unit.
pub open spec fn gmst_spec(days_since_j2000_micro: int) -> int {
    ((GMST_AT_J2000 * MICRODAYS_PER_DAY + GMST_RATE_PER_DAY * days_since_j2000_micro)
        % (FULL_TURN * MICRODAYS_PER_DAY)) / (MICRODAYS_PER_DAY as int)
}

proof fn lemma_gmst_spec_in_range(d: int)
    ensures
        0 <= gmst_spec(d) < FULL_TURN,
{
    let m = (FULL_TURN * MICRODAYS_PER_DAY) as int;
    let reduced = (GMST_AT_J2000 * MICRODAYS_PER_DAY + GMST_RATE_PER_DAY * d) % m;
    assert(0 <= reduced < m);
    assert(reduced / (MICRODAYS_PER_DAY as int) < FULL_TURN) by (nonlinear_arith)
        requires 0 <= reduced < (FULL_TURN * MICRODAYS_PER_DAY) as int;
    assert(reduced / (MICRODAYS_PER_DAY as int) >= 0) by (nonlinear_arith)
        requires reduced >= 0;
}

/// Greenwich mean sidereal time for a time in microdays since J2000.
pub fn greenwich_mean_sidereal_time(days_since_j2000_micro: i64) -> (r: i64)
    ensures
        r == gmst_spec(days_since_j2000_micro as int),
        0 <= r < FULL_TURN,
{
    let d: i128 = days_since_j2000_micro as i128;
    proof {
        assert((GMST_RATE_PER_DAY as i128) * d <= 36_098_564_736_629 * 9_223_372_036_854_775_807)
            by (nonlinear_arith)
            requires -9_223_372_036_854_775_808 <= d <= 9_223_372_036_854_775_807;
        assert((GMST_RATE_PER_DAY as i128) * d >= 36_098_564_736_629 * -9_223_372_036_854_775_808)
            by (nonlinear_arith)
            requires -9_223_372_036_854_775_808 <= d <= 9_223_372_036_854_775_807;
    }
    proof {
        assert(GMST_AT_J2000 * MICRODAYS_PER_DAY == 28_046_061_837_000_000_000int)
            by (nonlinear_arith);
        assert(FULL_TURN * MICRODAYS_PER_DAY == 36_000_000_000_000_000_000int)
            by (nonlinear_arith);
    }
    let scaled: i128 = 28_046_061_837_000_000_000 + (GMST_RATE_PER_DAY as i128) * d;
    let modulus: i128 = 36_000_000_000_000_000_000;
    let reduced: i128 = scaled.checked_rem_euclid(modulus).unwrap();
    let quotient: i128 = reduced.checked_div_euclid(MICRODAYS_PER_DAY as i128).unwrap();
    proof {
        lemma_gmst_spec_in_range(days_since_j2000_micro as int);
    }
    quotient as i64
}

/// Local sidereal time: Greenwich mean sidereal time plus the observer's
/// longitude (east positive), wrapped into `[0, FULL_TURN)`.  All quantities
/// are angle units of 1e-11 degree; the time is in microdays since J2000.
pub fn calculate_local_sidereal_time(days_since_j2000_micro: i64, longitude: i64) -> (r: i64)
    requires
        -FULL_TURN <= longitude <= FULL_TURN,
    ensures
        r == (gmst_spec(days_since_j2000_micro as int) + longitude) % (FULL_TURN as int),
        0 <= r < FULL_TURN,
{
    let gmst = greenwich_mean_sidereal_time(days_since_j2000_micro);
    normalize_angle(gmst + longitude)
}

} // verus!
