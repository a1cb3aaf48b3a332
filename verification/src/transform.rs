use vstd::prelude::*;
use crate::trig::{TRIG_SCALE, lemma_mul_bounds, lemma_div_bounds};
use crate::vector::{EclipticVector, VECTOR_BOUND};

verus! {

/// Cosine of the obliquity of the ecliptic (23.43929111 degrees, held as a
/// fixed epoch-independent constant), scaled by `TRIG_SCALE` and rounded to
/// the nearest unit.
pub const COS_OBLIQUITY: i64 = 917_482_062_077;

/// Sine of the obliquity of the ecliptic, scaled likewise.
pub const SIN_OBLIQUITY: i64 = 397_777_155_914;

/// A position vector in the equatorial frame, in units of 1e-12 astronomical
/// unit.  Right ascension is `atan2(y, x)` of such a vector and declination
/// is `asin(z / length)`; those arc functions are evaluated by the host
/// layer on this exact integer vector.
#[derive(Clone, Copy, PartialEq, Eq, Structural, Debug)]
pub struct EquatorialVector {
    pub x: i64,
    pub y: i64,
    pub z: i64,
}

impl EquatorialVector {
    /// All coordinates lie within `bound` in absolute value.
    pub open spec fn within(self, bound: int) -> bool {
        &&& -bound <= self.x <= bound
        &&& -bound <= self.y <= bound
        &&& -bound <= self.z <= bound
    }
}

/// Equatorial y component of the rotated vector: `y cos e - z sin e`,
/// evaluated in scaled integers and floored back to vector units.
pub open spec fn equatorial_y(v: EclipticVector) -> int {
    (v.y * COS_OBLIQUITY - v.z * SIN_OBLIQUITY) / (TRIG_SCALE as int)
}

/// Equatorial z component of the rotated vector: `y sin e + z cos e`.
pub open spec fn equatorial_z(v: EclipticVector) -> int {
    (v.y * SIN_OBLIQUITY + v.z * COS_OBLIQUITY) / (TRIG_SCALE as int)
}

/// Rotate an ecliptic-frame vector about the x axis by the obliquity of the
/// ecliptic, yielding the same position in the equatorial frame.  The x
/// coordinate is unchanged; y and z are mixed by the fixed rotation
/// coefficients.
pub fn ecliptic_to_equatorial(v: EclipticVector) -> (r: EquatorialVector)
    requires
        v.within(4 * VECTOR_BOUND),
    ensures
        r.x == v.x,
        r.y == equatorial_y(v),
        r.z == equatorial_z(v),
        r.within(8 * VECTOR_BOUND),
{
    proof {
        lemma_mul_bounds(v.y as int, COS_OBLIQUITY as int, 4 * VECTOR_BOUND, TRIG_SCALE as int);
        lemma_mul_bounds(v.z as int, SIN_OBLIQUITY as int, 4 * VECTOR_BOUND, TRIG_SCALE as int);
        lemma_mul_bounds(v.y as int, SIN_OBLIQUITY as int, 4 * VECTOR_BOUND, TRIG_SCALE as int);
        lemma_mul_bounds(v.z as int, COS_OBLIQUITY as int, 4 * VECTOR_BOUND, TRIG_SCALE as int);
    }
    let ty: i128 = (v.y as i128) * (COS_OBLIQUITY as i128) - (v.z as i128) * (SIN_OBLIQUITY as i128);
    let tz: i128 = (v.y as i128) * (SIN_OBLIQUITY as i128) + (v.z as i128) * (COS_OBLIQUITY as i128);
    proof {
        lemma_div_bounds(ty as int, TRIG_SCALE as int, 8 * VECTOR_BOUND);
        lemma_div_bounds(tz as int, TRIG_SCALE as int, 8 * VECTOR_BOUND);
    }
    let ry: i128 = ty.checked_div_euclid(TRIG_SCALE as i128).unwrap();
    let rz: i128 = tz.checked_div_euclid(TRIG_SCALE as i128).unwrap();
    EquatorialVector { x: v.x, y: ry as i64, z: rz as i64 }
}

/// A vector pointing along the x axis is fixed by the obliquity rotation:
/// both rotated cross components vanish, so the right ascension and the
/// declination read off the equatorial vector are exactly zero.  (A general
/// vector of the ecliptic plane is not fixed: `(0, 1, 0)` acquires a
/// nonzero z component.)
pub proof fn lemma_x_axis_unmoved(v: EclipticVector)
    requires
        v.y == 0,
        v.z == 0,
    ensures
        equatorial_y(v) == 0,
        equatorial_z(v) == 0,
{
    assert(v.y * COS_OBLIQUITY - v.z * SIN_OBLIQUITY == 0);
    assert(v.y * SIN_OBLIQUITY + v.z * COS_OBLIQUITY == 0);
    assert(0int / (TRIG_SCALE as int) == 0) by (nonlinear_arith);
}

} // verus!
