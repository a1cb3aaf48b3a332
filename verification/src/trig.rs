use vstd::prelude::*;

verus! {

/// Trigonometric ratios are held as integers scaled by 1e12: a sine or
/// cosine value `v` is represented by `round(v * TRIG_SCALE)`.
pub const TRIG_SCALE: i64 = 1_000_000_000_000;

/// The sine and cosine of one angle, both scaled by `TRIG_SCALE`.  The host
/// layer evaluates the trigonometric functions and hands their values in
/// through this type; the library then combines them exactly.
#[derive(Clone, Copy, PartialEq, Eq, Structural, Debug)]
pub struct TrigAngle {
    pub sin: i64,
    pub cos: i64,
}

impl TrigAngle {
    /// Both components lie in the scaled range of a sine or cosine.
    pub open spec fn valid(self) -> bool {
        &&& -TRIG_SCALE <= self.sin <= TRIG_SCALE
        &&& -TRIG_SCALE <= self.cos <= TRIG_SCALE
    }

    pub fn new(sin: i64, cos: i64) -> (t: TrigAngle)
        requires
            -TRIG_SCALE <= sin <= TRIG_SCALE,
            -TRIG_SCALE <= cos <= TRIG_SCALE,
        ensures
            t.sin == sin,
            t.cos == cos,
            t.valid(),
    {
        TrigAngle { sin, cos }
    }
}

/// `a * b` stays within the product of the two bounds.
pub(crate) proof fn lemma_mul_bounds(a: int, b: int, ab: int, bb: int)
    requires
        0 <= ab,
        0 <= bb,
        -ab <= a <= ab,
        -bb <= b <= bb,
    ensures
        -ab * bb <= a * b <= ab * bb,
{
    assert(-ab * bb <= a * b <= ab * bb) by (nonlinear_arith)
        requires
            0 <= ab,
            0 <= bb,
            -ab <= a <= ab,
            -bb <= b <= bb;
}

/// Euclidean division by a positive divisor keeps a symmetric bound: if
/// `-c * s <= t <= c * s` then `-c <= t / s <= c`.
pub(crate) proof fn lemma_div_bounds(t: int, s: int, c: int)
    requires
        0 < s,
        0 <= c,
        -c * s <= t <= c * s,
    ensures
        -c <= t / s <= c,
{
    assert(-c <= t / s <= c) by (nonlinear_arith)
        requires
            0 < s,
            0 <= c,
            -c * s <= t <= c * s;
}

} // verus!
