use vstd::prelude::*;

verus! {

/// Cartesian positions are held in units of 1e-12 astronomical unit, in the
/// ecliptic frame.  An ephemeris position is bounded by `VECTOR_BOUND`
/// (1000 AU), far beyond any solar-system distance; sums and differences of
/// such positions carry small multiples of this bound.
pub const VECTOR_BOUND: i64 = 1_000_000_000_000_000;

/// A position vector in the ecliptic frame, relative to a named center
/// (barycentric as produced by an ephemeris, or geocentric after
/// subtracting Earth's position).
#[derive(Clone, Copy, PartialEq, Eq, Structural, Debug)]
pub struct EclipticVector {
    pub x: i64,
    pub y: i64,
    pub z: i64,
}

impl EclipticVector {
    /// All coordinates lie within `bound` in absolute value.
    pub open spec fn within(self, bound: int) -> bool {
        &&& -bound <= self.x <= bound
        &&& -bound <= self.y <= bound
        &&& -bound <= self.z <= bound
    }

    /// The bound that a single ephemeris position obeys.
    pub open spec fn bounded(self) -> bool {
        self.within(VECTOR_BOUND as int)
    }

    pub fn new(x: i64, y: i64, z: i64) -> (v: EclipticVector)
        ensures
            v.x == x && v.y == y && v.z == z,
    {
        EclipticVector { x, y, z }
    }

    /// Componentwise difference: the position of `self` as seen from
    /// `origin`.  Turning a barycentric body position into a geocentric one
    /// subtracts Earth's barycentric position this way.
    pub fn minus(self, origin: EclipticVector) -> (r: EclipticVector)
        requires
            self.within(2 * VECTOR_BOUND),
            origin.bounded(),
        ensures
            r.x == self.x - origin.x,
            r.y == self.y - origin.y,
            r.z == self.z - origin.z,
            r.within(3 * VECTOR_BOUND),
    {
        EclipticVector { x: self.x - origin.x, y: self.y - origin.y, z: self.z - origin.z }
    }

    /// Componentwise sum: rebases a position given relative to one center
    /// onto that center's own position.
    pub fn plus(self, offset: EclipticVector) -> (r: EclipticVector)
        requires
            self.bounded(),
            offset.bounded(),
        ensures
            r.x == self.x + offset.x,
            r.y == self.y + offset.y,
            r.z == self.z + offset.z,
            r.within(2 * VECTOR_BOUND),
    {
        EclipticVector { x: self.x + offset.x, y: self.y + offset.y, z: self.z + offset.z }
    }
}

} // verus!
