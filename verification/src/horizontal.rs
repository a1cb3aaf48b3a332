use vstd::prelude::*;
use crate::angle::{FULL_TURN, normalize_angle};
use crate::trig::{TRIG_SCALE, TrigAngle, lemma_mul_bounds, lemma_div_bounds};

verus! {

/// The horizontal position of a body, in the forms the 2D projection needs.
/// `altitude_sine` is the scaled sine of the altitude; the altitude itself
/// is its arcsine.  The azimuth is `atan2(azimuth_y, azimuth_x)` of the two
/// scaled components, wrapped into a full turn.  The arc functions are
/// evaluated by the host layer on these exact integers.
#[derive(Clone, Copy, PartialEq, Eq, Structural, Debug)]
pub struct HorizontalForm {
    pub altitude_sine: i64,
    pub azimuth_y: i64,
    pub azimuth_x: i64,
}

/// Scaled sine of the altitude:
/// `sin dec sin lat + cos dec cos lat cos ha`, evaluated in scaled integers
/// and floored back to `TRIG_SCALE` units.
pub open spec fn altitude_sine_spec(dec: TrigAngle, lat: TrigAngle, ha: TrigAngle) -> int {
    (dec.sin * lat.sin * TRIG_SCALE + dec.cos * lat.cos * ha.cos)
        / (TRIG_SCALE * TRIG_SCALE)
}

/// Scaled numerator of the azimuth arctangent: `sin ha cos dec`.
pub open spec fn azimuth_y_spec(dec: TrigAngle, ha: TrigAngle) -> int {
    (ha.sin * dec.cos) / (TRIG_SCALE as int)
}

/// Scaled denominator of the azimuth arctangent:
/// `cos ha sin lat cos dec - sin dec cos lat`.  This is the classical
/// `cos ha sin lat - tan dec cos lat` with both arctangent arguments
/// multiplied by `cos dec`, which is nonnegative for any declination and so
/// leaves the arctangent unchanged while avoiding the unbounded tangent.
pub open spec fn azimuth_x_spec(dec: TrigAngle, lat: TrigAngle, ha: TrigAngle) -> int {
    (ha.cos * lat.sin * dec.cos - dec.sin * lat.cos * TRIG_SCALE)
        / (TRIG_SCALE * TRIG_SCALE)
}

/// Whenever the sine/cosine pairs for the declination and the latitude obey
/// the scaled Pythagorean bound — as every true sine and cosine of one
/// angle does — the altitude sine stays within the scaled range of a true
/// sine, so the altitude read off it by an arcsine lies in the closed
/// quarter-turn band around the horizon.
pub proof fn lemma_altitude_sine_in_unit_range(dec: TrigAngle, lat: TrigAngle, ha: TrigAngle)
    requires
        dec.valid(),
        lat.valid(),
        ha.valid(),
        dec.sin * dec.sin + dec.cos * dec.cos <= TRIG_SCALE * TRIG_SCALE,
        lat.sin * lat.sin + lat.cos * lat.cos <= TRIG_SCALE * TRIG_SCALE,
    ensures
        -TRIG_SCALE <= altitude_sine_spec(dec, lat, ha) <= TRIG_SCALE,
{
    let s = TRIG_SCALE as int;
    let a = dec.sin as int;
    let c = dec.cos as int;
    let b = lat.sin as int;
    let d = lat.cos as int;
    let hc = ha.cos as int;
    let u = a * b;
    let v = c * d;
    let num = u * s + v * hc;

    // The two products obey the arithmetic-geometric mean bound.
    assert(2 * (a * b) <= a * a + b * b) by (nonlinear_arith);
    assert(-(a * a + b * b) <= 2 * (a * b)) by (nonlinear_arith);
    assert(2 * (c * d) <= c * c + d * d) by (nonlinear_arith);
    assert(-(c * c + d * d) <= 2 * (c * d)) by (nonlinear_arith);
    assert(0 <= a * a + b * b) by (nonlinear_arith);
    assert(0 <= c * c + d * d) by (nonlinear_arith);

    // Multiply each through its partner factor, bounded by the scale.
    lemma_mul_bounds(2 * u, s, a * a + b * b, s);
    lemma_mul_bounds(2 * v, hc, c * c + d * d, s);
    assert((2 * u) * s == 2 * (u * s)) by (nonlinear_arith);
    assert((2 * v) * hc == 2 * (v * hc)) by (nonlinear_arith);
    assert((a * a + b * b) * s + (c * c + d * d) * s
        == ((a * a + b * b) + (c * c + d * d)) * s) by (nonlinear_arith);

    // Regroup the squares by their own angle and apply the Pythagorean bound.
    assert((a * a + b * b) + (c * c + d * d) <= 2 * (s * s));
    assert(((a * a + b * b) + (c * c + d * d)) * s <= (2 * (s * s)) * s) by (nonlinear_arith)
        requires
            (a * a + b * b) + (c * c + d * d) <= 2 * (s * s),
            0 <= (a * a + b * b) + (c * c + d * d),
            s > 0;
    assert((2 * (s * s)) * s == 2 * ((s * s) * s)) by (nonlinear_arith);
    assert(2 * num <= 2 * ((s * s) * s));
    assert(-(2 * ((s * s) * s)) <= 2 * num);
    assert(s * (s * s) == (s * s) * s) by (nonlinear_arith);
    lemma_div_bounds(num, s * s, s);
}

/// The hour angle of a body: local sidereal time minus right ascension,
/// wrapped into `[0, FULL_TURN)`.  All quantities are angle units.
pub fn hour_angle(lst: i64, right_ascension: i64) -> (r: i64)
    requires
        -FULL_TURN <= lst <= FULL_TURN,
        -FULL_TURN <= right_ascension <= FULL_TURN,
    ensures
        r == (lst - right_ascension) % (FULL_TURN as int),
        0 <= r < FULL_TURN,
{
    normalize_angle(lst - right_ascension)
}

/// Convert equatorial coordinates to the horizontal form, given the scaled
/// sines and cosines of the declination, the observer latitude, and the
/// hour angle.  Every arithmetic step is exact; the contract pins each
/// output component to its closed formula.
pub fn equatorial_to_horizontal(dec: TrigAngle, lat: TrigAngle, ha: TrigAngle) -> (r: HorizontalForm)
    requires
        dec.valid(),
        lat.valid(),
        ha.valid(),
    ensures
        r.altitude_sine == altitude_sine_spec(dec, lat, ha),
        r.azimuth_y == azimuth_y_spec(dec, ha),
        r.azimuth_x == azimuth_x_spec(dec, lat, ha),
        -2 * TRIG_SCALE <= r.altitude_sine <= 2 * TRIG_SCALE,
        -TRIG_SCALE <= r.azimuth_y <= TRIG_SCALE,
        -2 * TRIG_SCALE <= r.azimuth_x <= 2 * TRIG_SCALE,
{
    let s: i128 = TRIG_SCALE as i128;
    proof {
        assert(TRIG_SCALE * TRIG_SCALE == 1_000_000_000_000_000_000_000_000int) by (nonlinear_arith);
    }
    proof {
        lemma_mul_bounds(dec.sin as int, lat.sin as int, TRIG_SCALE as int, TRIG_SCALE as int);
        lemma_mul_bounds(
            dec.sin * lat.sin,
            TRIG_SCALE as int,
            TRIG_SCALE * TRIG_SCALE,
            TRIG_SCALE as int,
        );
        lemma_mul_bounds(dec.cos as int, lat.cos as int, TRIG_SCALE as int, TRIG_SCALE as int);
        lemma_mul_bounds(
            dec.cos * lat.cos,
            ha.cos as int,
            TRIG_SCALE * TRIG_SCALE,
            TRIG_SCALE as int,
        );
        lemma_mul_bounds(ha.sin as int, dec.cos as int, TRIG_SCALE as int, TRIG_SCALE as int);
        lemma_mul_bounds(ha.cos as int, lat.sin as int, TRIG_SCALE as int, TRIG_SCALE as int);
        lemma_mul_bounds(
            ha.cos * lat.sin,
            dec.cos as int,
            TRIG_SCALE * TRIG_SCALE,
            TRIG_SCALE as int,
        );
        lemma_mul_bounds(dec.sin as int, lat.cos as int, TRIG_SCALE as int, TRIG_SCALE as int);
        lemma_mul_bounds(
            dec.sin * lat.cos,
            TRIG_SCALE as int,
            TRIG_SCALE * TRIG_SCALE,
            TRIG_SCALE as int,
        );
    }
    let alt_num: i128 = (dec.sin as i128) * (lat.sin as i128) * s
        + (dec.cos as i128) * (lat.cos as i128) * (ha.cos as i128);
    let az_y_num: i128 = (ha.sin as i128) * (dec.cos as i128);
    let az_x_num: i128 = (ha.cos as i128) * (lat.sin as i128) * (dec.cos as i128)
        - (dec.sin as i128) * (lat.cos as i128) * s;
    proof {
        lemma_div_bounds(alt_num as int, TRIG_SCALE * TRIG_SCALE, 2 * TRIG_SCALE);
        lemma_div_bounds(az_y_num as int, TRIG_SCALE as int, TRIG_SCALE as int);
        lemma_div_bounds(az_x_num as int, TRIG_SCALE * TRIG_SCALE, 2 * TRIG_SCALE);
    }
    let altitude_sine: i128 = alt_num.checked_div_euclid(s * s).unwrap();
    let azimuth_y: i128 = az_y_num.checked_div_euclid(s).unwrap();
    let azimuth_x: i128 = az_x_num.checked_div_euclid(s * s).unwrap();
    HorizontalForm {
        altitude_sine: altitude_sine as i64,
        azimuth_y: azimuth_y as i64,
        azimuth_x: azimuth_x as i64,
    }
}

} // verus!
