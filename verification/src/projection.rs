use vstd::prelude::*;
use crate::angle::QUARTER_TURN;
use crate::trig::{TRIG_SCALE, TrigAngle, lemma_mul_bounds, lemma_div_bounds};

verus! {

/// Screen lengths are held in milli-pixels (1e-3 pixel).
pub const MILLIPIXELS_PER_PIXEL: i64 = 1000;

/// Upper bound on any canvas dimension: 1e6 pixels, in milli-pixels.
pub const SCREEN_BOUND: i64 = 1_000_000_000;

/// A point on the drawing surface, in milli-pixels.
#[derive(Clone, Copy, PartialEq, Eq, Structural, Debug)]
pub struct ScreenPoint {
    pub x: i64,
    pub y: i64,
}

impl ScreenPoint {
    /// Both coordinates lie within `bound` in absolute value.
    pub open spec fn within(self, bound: int) -> bool {
        &&& -bound <= self.x <= bound
        &&& -bound <= self.y <= bound
    }
}

/// The dome view's geometry, derived once per frame from the canvas size:
/// its center, the dome radius, and the base radius of a body marker.
#[derive(Clone, Copy, PartialEq, Eq, Structural, Debug)]
pub struct DomeGeometry {
    pub center: ScreenPoint,
    pub sky_radius: i64,
    pub marker_radius: i64,
}

impl DomeGeometry {
    pub open spec fn valid(self) -> bool {
        &&& 0 <= self.center.x <= SCREEN_BOUND
        &&& 0 <= self.center.y <= SCREEN_BOUND
        &&& 0 <= self.sky_radius <= SCREEN_BOUND
        &&& 0 <= self.marker_radius <= SCREEN_BOUND
    }
}

/// The smaller of the two canvas dimensions.
pub open spec fn min_dimension(width: int, height: int) -> int {
    if width <= height { width } else { height }
}

/// Compute the dome geometry: the center is the canvas midpoint, the dome
/// radius is half the smaller dimension less a 5% margin, and a marker's
/// base radius is 1% of the smaller dimension.
pub fn dome_geometry(width: i64, height: i64) -> (g: DomeGeometry)
    requires
        0 <= width <= SCREEN_BOUND,
        0 <= height <= SCREEN_BOUND,
    ensures
        g.center.x == width as int / 2,
        g.center.y == height as int / 2,
        g.sky_radius == min_dimension(width as int, height as int) / 2
            - min_dimension(width as int, height as int) * 5 / 100,
        g.marker_radius == min_dimension(width as int, height as int) / 100,
        g.valid(),
{
    let min_dim: i64 = if width <= height { width } else { height };
    let margin: i64 = (min_dim * 5).checked_div_euclid(100).unwrap();
    let half: i64 = min_dim.checked_div_euclid(2).unwrap();
    proof {
        assert(min_dim * 5 / 100 <= min_dim / 2) by (nonlinear_arith)
            requires 0 <= min_dim;
        assert(min_dim / 2 <= min_dim) by (nonlinear_arith)
            requires 0 <= min_dim;
        assert(min_dim * 5 / 100 >= 0) by (nonlinear_arith)
            requires 0 <= min_dim;
        assert(min_dim / 100 <= min_dim) by (nonlinear_arith)
            requires 0 <= min_dim;
        assert(min_dim / 100 >= 0) by (nonlinear_arith)
            requires 0 <= min_dim;
    }
    DomeGeometry {
        center: ScreenPoint {
            x: width.checked_div_euclid(2).unwrap(),
            y: height.checked_div_euclid(2).unwrap(),
        },
        sky_radius: half - margin,
        marker_radius: min_dim.checked_div_euclid(100).unwrap(),
    }
}

/// Radial distance from the dome center, linear in zenith angle: a body at
/// the zenith sits at the center, a body on the horizon at the dome edge.
/// The altitude is in angle units of 1e-11 degree.
pub open spec fn radial_spec(altitude: int, sky_radius: int) -> int {
    (QUARTER_TURN - altitude) * sky_radius / (QUARTER_TURN as int)
}

/// Projected x coordinate: east offset by the sine of the azimuth.
pub open spec fn projected_x(altitude: int, azimuth: TrigAngle, center: ScreenPoint, sky_radius: int) -> int {
    center.x + radial_spec(altitude, sky_radius) * azimuth.sin / (TRIG_SCALE as int)
}

/// Projected y coordinate: the cosine of the azimuth, so that azimuth zero
/// points to the top of the dome (screen convention, clockwise).
pub open spec fn projected_y(altitude: int, azimuth: TrigAngle, center: ScreenPoint, sky_radius: int) -> int {
    center.y + radial_spec(altitude, sky_radius) * azimuth.cos / (TRIG_SCALE as int)
}

/// On the horizon the radial distance is exactly the dome radius.
pub proof fn lemma_horizon_on_rim(sky_radius: int)
    requires
        0 <= sky_radius,
    ensures
        radial_spec(0, sky_radius) == sky_radius,
{
    assert(QUARTER_TURN * sky_radius / (QUARTER_TURN as int) == sky_radius) by (nonlinear_arith)
        requires 0 <= sky_radius;
}

/// A body at the zenith projects exactly onto the dome center, whatever its
/// azimuth.
pub proof fn lemma_zenith_at_center(azimuth: TrigAngle, center: ScreenPoint, sky_radius: int)
    ensures
        projected_x(QUARTER_TURN as int, azimuth, center, sky_radius) == center.x,
        projected_y(QUARTER_TURN as int, azimuth, center, sky_radius) == center.y,
{
    assert(0int * sky_radius == 0) by (nonlinear_arith);
    assert(0int / (QUARTER_TURN as int) == 0) by (nonlinear_arith);
    assert(0int * azimuth.sin == 0) by (nonlinear_arith);
    assert(0int * azimuth.cos == 0) by (nonlinear_arith);
    assert(0int / (TRIG_SCALE as int) == 0) by (nonlinear_arith);
}

/// Map a horizontal position to the screen.  The azimuth enters through its
/// scaled sine and cosine; the altitude through the linear radial law.  A
/// body at the zenith lands exactly on the dome center, whatever its
/// azimuth; a body above the horizon never leaves the dome's bounding box.
pub fn project_to_screen(altitude: i64, azimuth: TrigAngle, center: ScreenPoint, sky_radius: i64) -> (p: ScreenPoint)
    requires
        -QUARTER_TURN <= altitude <= QUARTER_TURN,
        azimuth.valid(),
        center.within(SCREEN_BOUND as int),
        0 <= sky_radius <= SCREEN_BOUND,
    ensures
        p.x == projected_x(altitude as int, azimuth, center, sky_radius as int),
        p.y == projected_y(altitude as int, azimuth, center, sky_radius as int),
        altitude == QUARTER_TURN ==> p.x == center.x && p.y == center.y,
        0 <= altitude ==> (center.x - sky_radius <= p.x <= center.x + sky_radius
            && center.y - sky_radius <= p.y <= center.y + sky_radius),
{
    let qa: i64 = QUARTER_TURN - altitude;
    proof {
        lemma_mul_bounds(qa as int, sky_radius as int, 2 * QUARTER_TURN, sky_radius as int);
        lemma_div_bounds(qa * sky_radius, QUARTER_TURN as int, 2 * sky_radius);
        if 0 <= altitude {
            lemma_mul_bounds(qa as int, sky_radius as int, QUARTER_TURN as int, sky_radius as int);
            lemma_div_bounds(qa * sky_radius, QUARTER_TURN as int, sky_radius as int);
            assert(qa * sky_radius >= 0) by (nonlinear_arith)
                requires qa >= 0 && sky_radius >= 0;
            assert(qa * sky_radius / (QUARTER_TURN as int) >= 0) by (nonlinear_arith)
                requires qa * sky_radius >= 0;
        }
    }
    let rad_num: i128 = (qa as i128) * (sky_radius as i128);
    let radial: i128 = rad_num.checked_div_euclid(QUARTER_TURN as i128).unwrap();
    proof {
        lemma_mul_bounds(radial as int, azimuth.sin as int, 2 * sky_radius, TRIG_SCALE as int);
        lemma_mul_bounds(radial as int, azimuth.cos as int, 2 * sky_radius, TRIG_SCALE as int);
        lemma_div_bounds(radial * azimuth.sin, TRIG_SCALE as int, 2 * sky_radius);
        lemma_div_bounds(radial * azimuth.cos, TRIG_SCALE as int, 2 * sky_radius);
        if 0 <= altitude {
            lemma_mul_bounds(radial as int, azimuth.sin as int, sky_radius as int, TRIG_SCALE as int);
            lemma_mul_bounds(radial as int, azimuth.cos as int, sky_radius as int, TRIG_SCALE as int);
            lemma_div_bounds(radial * azimuth.sin, TRIG_SCALE as int, sky_radius as int);
            lemma_div_bounds(radial * azimuth.cos, TRIG_SCALE as int, sky_radius as int);
        }
        if altitude == QUARTER_TURN {
            assert(0int * sky_radius == 0) by (nonlinear_arith);
            assert(0int / (QUARTER_TURN as int) == 0) by (nonlinear_arith);
            assert(0int * azimuth.sin == 0) by (nonlinear_arith);
            assert(0int * azimuth.cos == 0) by (nonlinear_arith);
            assert(0int / (TRIG_SCALE as int) == 0) by (nonlinear_arith);
        }
    }
    let dx: i128 = (radial * (azimuth.sin as i128)).checked_div_euclid(TRIG_SCALE as i128).unwrap();
    let dy: i128 = (radial * (azimuth.cos as i128)).checked_div_euclid(TRIG_SCALE as i128).unwrap();
    ScreenPoint { x: center.x + dx as i64, y: center.y + dy as i64 }
}

/// The pointer-proximity rule: a marker is highlighted exactly when the
/// Euclidean distance from its center to the pointer is strictly below 1.5
/// times the base marker radius.  Comparing squared distances keeps the
/// test exact: `dist < 1.5 r  <=>  4 dist^2 < 9 r^2`.  A pointer at exactly
/// 1.5 times the radius does not highlight.
pub fn is_highlighted(marker: ScreenPoint, pointer: ScreenPoint, base_radius: i64) -> (b: bool)
    requires
        marker.within(4 * SCREEN_BOUND),
        pointer.within(4 * SCREEN_BOUND),
        0 <= base_radius <= SCREEN_BOUND,
    ensures
        b <==> 4 * ((marker.x - pointer.x) * (marker.x - pointer.x)
            + (marker.y - pointer.y) * (marker.y - pointer.y))
            < 9 * (base_radius * base_radius),
{
    let dx: i64 = marker.x - pointer.x;
    let dy: i64 = marker.y - pointer.y;
    proof {
        lemma_mul_bounds(dx as int, dx as int, 8 * SCREEN_BOUND, 8 * SCREEN_BOUND);
        lemma_mul_bounds(dy as int, dy as int, 8 * SCREEN_BOUND, 8 * SCREEN_BOUND);
        lemma_mul_bounds(base_radius as int, base_radius as int, SCREEN_BOUND as int, SCREEN_BOUND as int);
    }
    let d2: i128 = (dx as i128) * (dx as i128) + (dy as i128) * (dy as i128);
    let r2: i128 = (base_radius as i128) * (base_radius as i128);
    4 * d2 < 9 * r2
}

/// The radius a marker is drawn with: enlarged by half when highlighted.
pub fn marker_draw_radius(base_radius: i64, highlighted: bool) -> (r: i64)
    requires
        0 <= base_radius <= SCREEN_BOUND,
    ensures
        highlighted ==> r == 3 * base_radius / 2,
        !highlighted ==> r == base_radius,
{
    if highlighted {
        (3 * base_radius).checked_div_euclid(2).unwrap()
    } else {
        base_radius
    }
}

/// Everything the renderer needs to draw one body: where, how large, and
/// whether to add the label.
#[derive(Clone, Copy, PartialEq, Eq, Structural, Debug)]
pub struct BodyMarker {
    pub position: ScreenPoint,
    pub draw_radius: i64,
    pub highlighted: bool,
}

/// Plan the marker for one body from its horizontal position.  A body at or
/// below the horizon is not drawn at all; one above it is projected onto
/// the dome, compared against the pointer, and sized accordingly.
pub fn plan_body_marker(
    altitude: i64,
    azimuth: TrigAngle,
    geometry: DomeGeometry,
    pointer: ScreenPoint,
) -> (m: Option<BodyMarker>)
    requires
        -QUARTER_TURN <= altitude <= QUARTER_TURN,
        azimuth.valid(),
        geometry.valid(),
        pointer.within(4 * SCREEN_BOUND),
    ensures
        m.is_some() <==> altitude > 0,
        m matches Some(marker) ==> {
            let px = projected_x(altitude as int, azimuth, geometry.center, geometry.sky_radius as int);
            let py = projected_y(altitude as int, azimuth, geometry.center, geometry.sky_radius as int);
            &&& marker.position.x == px
            &&& marker.position.y == py
            &&& (marker.highlighted <==> 4 * ((px - pointer.x) * (px - pointer.x)
                    + (py - pointer.y) * (py - pointer.y))
                    < 9 * (geometry.marker_radius * geometry.marker_radius))
            &&& marker.highlighted ==> marker.draw_radius == 3 * geometry.marker_radius / 2
            &&& !marker.highlighted ==> marker.draw_radius == geometry.marker_radius
        },
{
    if altitude <= 0 {
        return None;
    }
    let position = project_to_screen(altitude, azimuth, geometry.center, geometry.sky_radius);
    let highlighted = is_highlighted(position, pointer, geometry.marker_radius);
    let draw_radius = marker_draw_radius(geometry.marker_radius, highlighted);
    Some(BodyMarker { position, draw_radius, highlighted })
}

/// The north indicator: a small triangle whose base sits on the dome's top
/// edge, its apex above it, with the letter position and size for its
/// label.  All lengths derive from the dome radius (8% for the triangle).
#[derive(Clone, Copy, PartialEq, Eq, Structural, Debug)]
pub struct NorthMarker {
    pub apex: ScreenPoint,
    pub base_left: ScreenPoint,
    pub base_right: ScreenPoint,
    pub label_position: ScreenPoint,
    pub label_size: i64,
}

/// Triangle side of the north indicator: 8% of the dome radius.
pub open spec fn north_size(sky_radius: int) -> int {
    sky_radius * 8 / 100
}

/// Compute the north indicator's geometry from the dome geometry.
pub fn north_marker(geometry: DomeGeometry) -> (n: NorthMarker)
    requires
        geometry.valid(),
    ensures
        n.apex.x == geometry.center.x,
        n.apex.y == geometry.center.y - geometry.sky_radius - north_size(geometry.sky_radius as int),
        n.base_left.x == geometry.center.x - north_size(geometry.sky_radius as int) / 2,
        n.base_left.y == n.apex.y + north_size(geometry.sky_radius as int),
        n.base_right.x == geometry.center.x + north_size(geometry.sky_radius as int) / 2,
        n.base_right.y == n.apex.y + north_size(geometry.sky_radius as int),
        n.label_position.x == geometry.center.x,
        n.label_position.y == n.apex.y + north_size(geometry.sky_radius as int) * 95 / 100,
        n.label_size == north_size(geometry.sky_radius as int) * 75 / 100,
{
    let r: i64 = geometry.sky_radius;
    let tri: i64 = (r * 8).checked_div_euclid(100).unwrap();
    proof {
        assert(0 <= r * 8 / 100 <= r) by (nonlinear_arith)
            requires 0 <= r;
    }
    let apex_y: i64 = geometry.center.y - r - tri;
    NorthMarker {
        apex: ScreenPoint { x: geometry.center.x, y: apex_y },
        base_left: ScreenPoint {
            x: geometry.center.x - tri.checked_div_euclid(2).unwrap(),
            y: apex_y + tri,
        },
        base_right: ScreenPoint {
            x: geometry.center.x + tri.checked_div_euclid(2).unwrap(),
            y: apex_y + tri,
        },
        label_position: ScreenPoint {
            x: geometry.center.x,
            y: apex_y + (tri * 95).checked_div_euclid(100).unwrap(),
        },
        label_size: (tri * 75).checked_div_euclid(100).unwrap(),
    }
}

} // verus!
