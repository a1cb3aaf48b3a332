use skydome::angle::{ANGLE_UNITS_PER_DEGREE, FULL_TURN, QUARTER_TURN, normalize_angle};
use skydome::bodies::{Body, BodyId, get_bodies, moon_barycentric};
use skydome::horizontal::{equatorial_to_horizontal, hour_angle};
use skydome::projection::{
    DomeGeometry, ScreenPoint, dome_geometry, is_highlighted, marker_draw_radius, north_marker,
    plan_body_marker, project_to_screen,
};
use skydome::sidereal::calculate_local_sidereal_time;
use skydome::transform::ecliptic_to_equatorial;
use skydome::trig::{TRIG_SCALE, TrigAngle};
use skydome::vector::EclipticVector;

const EPS: f64 = 1e-10;

fn approx_eq(a: f64, b: f64) -> bool {
    (a - b).abs() < EPS
}

/// Degrees to angle units of 1e-11 degree.
fn deg_to_units(d: f64) -> i64 {
    (d * ANGLE_UNITS_PER_DEGREE as f64).round() as i64
}

/// Radians to angle units of 1e-11 degree.
fn rad_to_units(r: f64) -> i64 {
    deg_to_units(r.to_degrees())
}

/// Angle units to radians.
fn units_to_rad(u: i64) -> f64 {
    (u as f64 / ANGLE_UNITS_PER_DEGREE as f64).to_radians()
}

/// The scaled sine and cosine of an angle given in radians.
fn trig_of_rad(r: f64) -> TrigAngle {
    TrigAngle::new(
        (r.sin() * TRIG_SCALE as f64).round() as i64,
        (r.cos() * TRIG_SCALE as f64).round() as i64,
    )
}

/// Astronomical units to vector units of 1e-12 AU.
fn au_to_units(v: f64) -> i64 {
    (v * 1e12).round() as i64
}

#[test]
fn test_ecliptic_to_equatorial_equator() {
    let v = EclipticVector::new(au_to_units(1.0), 0, 0);
    let r = ecliptic_to_equatorial(v);
    let ra = (r.y as f64).atan2(r.x as f64);
    let len = ((r.x as f64).powi(2) + (r.y as f64).powi(2) + (r.z as f64).powi(2)).sqrt();
    let dec = (r.z as f64 / len).asin();
    assert!(approx_eq(ra, 0.0));
    assert!(approx_eq(dec, 0.0));
}

#[test]
fn test_equatorial_to_horizontal_star_overhead() {
    let ra = 0i64;
    let dec = 0.0f64;
    let lat = 0.0f64;
    let lst = 0i64;

    let ha = hour_angle(lst, ra);
    let h = equatorial_to_horizontal(
        trig_of_rad(dec),
        trig_of_rad(lat.to_radians()),
        trig_of_rad(units_to_rad(ha)),
    );
    let alt = (h.altitude_sine as f64 / TRIG_SCALE as f64).clamp(-1.0, 1.0).asin();
    assert!(approx_eq(alt.to_degrees(), 90.0));
}

#[test]
fn test_sidereal_time_j2000() {
    let lst = calculate_local_sidereal_time(0, 0);
    assert_eq!(lst, 28_046_061_837_000);
    let deg = lst as f64 / 1e11;
    assert!((deg - 280.46061837).abs() < 1e-6);
}

#[test]
fn test_sidereal_time_one_day_before_epoch() {
    // 280.46061837 - 360.98564736629 wrapped into a turn, exactly.
    let lst = calculate_local_sidereal_time(-1_000_000, 0);
    assert_eq!(lst, 27_947_497_100_371);
}

#[test]
fn test_sidereal_time_includes_longitude() {
    let lon = deg_to_units(-74.0060); // west longitudes subtract
    let lst = calculate_local_sidereal_time(0, lon);
    assert_eq!(lst, 28_046_061_837_000 - 7_400_600_000_000);
}

#[test]
fn test_normalize_angle_wraps_negative() {
    assert_eq!(normalize_angle(-1), FULL_TURN - 1);
    assert_eq!(normalize_angle(-FULL_TURN), 0);
    assert_eq!(normalize_angle(-3 * FULL_TURN - 5), FULL_TURN - 5);
}

#[test]
fn test_normalize_angle_full_turns() {
    assert_eq!(normalize_angle(0), 0);
    assert_eq!(normalize_angle(FULL_TURN), 0);
    assert_eq!(normalize_angle(5 * FULL_TURN + 7), 7);
    assert_eq!(normalize_angle(FULL_TURN - 1), FULL_TURN - 1);
}

#[test]
fn test_lst_always_in_range() {
    let days = [0i64, 1, -1, 9_131_000_000, -9_131_000_000, 123_456_789, i64::MAX / 2];
    let lons = [0i64, deg_to_units(179.9), deg_to_units(-179.9), deg_to_units(13.3)];
    for &d in days.iter() {
        for &lon in lons.iter() {
            let lst = calculate_local_sidereal_time(d, lon);
            assert!(0 <= lst && lst < FULL_TURN);
        }
    }
}

#[test]
fn test_hour_angle_negative_wrap() {
    // Right ascension ahead of local sidereal time: the difference is
    // negative before wrapping and must come back into [0, FULL_TURN).
    let lst = deg_to_units(10.0);
    let ra = deg_to_units(250.0);
    let ha = hour_angle(lst, ra);
    assert_eq!(ha, deg_to_units(120.0));
    assert!(0 <= ha && ha < FULL_TURN);
}

#[test]
fn test_azimuth_always_in_range() {
    // Wrapped azimuths stay inside one turn for a spread of raw angles.
    let raw = [
        deg_to_units(-123.4),
        deg_to_units(359.999),
        deg_to_units(720.5),
        deg_to_units(-360.0),
        -1i64,
    ];
    for &a in raw.iter() {
        let n = normalize_angle(a);
        assert!(0 <= n && n < FULL_TURN);
    }
}

#[test]
fn test_x_axis_vector_unmoved_exactly() {
    // A body along the x axis keeps a zero y and z in the equatorial frame,
    // so its right ascension and declination are exactly zero.
    let v = EclipticVector::new(123_456_789_012, 0, 0);
    let r = ecliptic_to_equatorial(v);
    assert_eq!(r.x, 123_456_789_012);
    assert_eq!(r.y, 0);
    assert_eq!(r.z, 0);
}

#[test]
fn test_ecliptic_to_equatorial_matches_reference() {
    let (x, y, z) = (0.5f64, 0.3f64, -0.2f64);
    let v = EclipticVector::new(au_to_units(x), au_to_units(y), au_to_units(z));
    let r = ecliptic_to_equatorial(v);
    let e = 23.43929111f64.to_radians();
    let ry = y * e.cos() - z * e.sin();
    let rz = y * e.sin() + z * e.cos();
    assert!((r.y as f64 / 1e12 - ry).abs() < 1e-9);
    assert!((r.z as f64 / 1e12 - rz).abs() < 1e-9);
}

#[test]
fn test_moon_composition() {
    let moon_from_sun = EclipticVector::new(au_to_units(0.98), au_to_units(0.01), au_to_units(-0.002));
    let sun = EclipticVector::new(au_to_units(0.004), au_to_units(-0.006), au_to_units(0.0001));
    let m = moon_barycentric(moon_from_sun, sun);
    assert_eq!(m.x, au_to_units(0.98) + au_to_units(0.004));
    assert_eq!(m.y, au_to_units(0.01) + au_to_units(-0.006));
    assert_eq!(m.z, au_to_units(-0.002) + au_to_units(0.0001));
}

#[test]
fn test_get_bodies_catalog() {
    let bodies: Vec<Body> = get_bodies();
    assert_eq!(bodies.len(), 9);
    assert_eq!(bodies[0].id, BodyId::Sun);
    assert_eq!(bodies[0].name, "Sun");
    assert_eq!(bodies[0].color, "#FFFFFF");
    assert_eq!(bodies[1].name, "Mercury");
    assert_eq!(bodies[4].name, "Jupiter");
    assert_eq!(bodies[7].name, "Neptune");
    assert_eq!(bodies[8].id, BodyId::Moon);
    assert_eq!(bodies[8].color, "#9DA9A0");
}

#[test]
fn test_dome_geometry_thousand_square() {
    // A 1000 x 1000 pixel canvas, in milli-pixels.
    let g = dome_geometry(1_000_000, 1_000_000);
    assert_eq!(g.center.x, 500_000);
    assert_eq!(g.center.y, 500_000);
    assert_eq!(g.sky_radius, 450_000); // half minus the 5% margin
    assert_eq!(g.marker_radius, 10_000); // 1% of the smaller dimension
}

#[test]
fn test_dome_geometry_landscape() {
    let g = dome_geometry(1_600_000, 900_000);
    assert_eq!(g.center.x, 800_000);
    assert_eq!(g.center.y, 450_000);
    assert_eq!(g.sky_radius, 405_000);
    assert_eq!(g.marker_radius, 9_000);
}

#[test]
fn test_project_zenith_hits_center() {
    let g = dome_geometry(1_000_000, 1_000_000);
    for az_deg in [0.0f64, 33.0, 90.0, 180.0, 271.5] {
        let az = trig_of_rad(az_deg.to_radians());
        let p = project_to_screen(QUARTER_TURN, az, g.center, g.sky_radius);
        assert_eq!(p.x, g.center.x);
        assert_eq!(p.y, g.center.y);
    }
}

#[test]
fn test_project_horizon_reaches_rim() {
    let g = dome_geometry(1_000_000, 1_000_000);
    // Azimuth zero points straight up the screen.
    let north = trig_of_rad(0.0);
    let p = project_to_screen(0, north, g.center, g.sky_radius);
    assert_eq!(p.x, g.center.x);
    assert_eq!(p.y, g.center.y + g.sky_radius);
    // At an oblique azimuth the Euclidean distance still lands on the rim,
    // within integer rounding.
    let az = trig_of_rad(45f64.to_radians());
    let q = project_to_screen(0, az, g.center, g.sky_radius);
    let dist = (((q.x - g.center.x) as f64).powi(2) + ((q.y - g.center.y) as f64).powi(2)).sqrt();
    assert!((dist - g.sky_radius as f64).abs() < 2.0);
}

#[test]
fn test_highlight_boundary() {
    let base = 10_000i64; // a 10 pixel marker
    let marker = ScreenPoint { x: 100_000, y: 100_000 };
    // 1.5 times the base radius is 15000 milli-pixels.
    let just_inside = ScreenPoint { x: 100_000 + 14_999, y: 100_000 };
    let exactly_on = ScreenPoint { x: 100_000 + 15_000, y: 100_000 };
    let just_outside = ScreenPoint { x: 100_000 + 15_001, y: 100_000 };
    assert!(is_highlighted(marker, just_inside, base));
    assert!(!is_highlighted(marker, exactly_on, base)); // strict comparison
    assert!(!is_highlighted(marker, just_outside, base));
}

#[test]
fn test_marker_draw_radius_values() {
    assert_eq!(marker_draw_radius(10_000, false), 10_000);
    assert_eq!(marker_draw_radius(10_000, true), 15_000);
}

#[test]
fn test_plan_body_marker_below_horizon() {
    let g = dome_geometry(1_000_000, 1_000_000);
    let az = trig_of_rad(1.0);
    let pointer = ScreenPoint { x: 0, y: 0 };
    assert!(plan_body_marker(0, az, g, pointer).is_none());
    assert!(plan_body_marker(-deg_to_units(10.0), az, g, pointer).is_none());
}

#[test]
fn test_plan_body_marker_above_horizon() {
    let g = dome_geometry(1_000_000, 1_000_000);
    let az = trig_of_rad(0.0);
    let far_pointer = ScreenPoint { x: 0, y: 0 };
    let m = plan_body_marker(deg_to_units(45.0), az, g, far_pointer).unwrap();
    // Half way up the dome, straight toward the top of the screen.
    assert_eq!(m.position.x, g.center.x);
    assert_eq!(m.position.y, g.center.y + g.sky_radius / 2);
    assert!(!m.highlighted);
    assert_eq!(m.draw_radius, g.marker_radius);

    let near_pointer = m.position;
    let h = plan_body_marker(deg_to_units(45.0), az, g, near_pointer).unwrap();
    assert!(h.highlighted);
    assert_eq!(h.draw_radius, 15_000);
}

#[test]
fn test_north_marker_geometry() {
    let g = dome_geometry(1_000_000, 1_000_000);
    let n = north_marker(g);
    let tri = 450_000 * 8 / 100; // 36000
    assert_eq!(n.apex.x, 500_000);
    assert_eq!(n.apex.y, 500_000 - 450_000 - tri);
    assert_eq!(n.base_left.x, 500_000 - tri / 2);
    assert_eq!(n.base_left.y, n.apex.y + tri);
    assert_eq!(n.base_right.x, 500_000 + tri / 2);
    assert_eq!(n.label_size, tri * 75 / 100);
}

#[test]
fn test_end_to_end_zenith() {
    // Observer at latitude 0, longitude 0, at the J2000 epoch.  A synthetic
    // body placed exactly in the zenith direction for that time must land
    // within one pixel of the dome center on a 1000 x 1000 canvas.
    let lst = calculate_local_sidereal_time(0, 0);
    let lst_rad = units_to_rad(lst);

    // Zenith direction for latitude 0: declination 0, right ascension equal
    // to the local sidereal time.  Build its ecliptic unit vector by
    // applying the inverse obliquity rotation.
    let e = 23.43929111f64.to_radians();
    let (ex, ey, ez) = (lst_rad.cos(), lst_rad.sin(), 0.0f64);
    let ecl = EclipticVector::new(
        au_to_units(ex),
        au_to_units(ey * e.cos() + ez * e.sin()),
        au_to_units(-ey * e.sin() + ez * e.cos()),
    );
    let earth = EclipticVector::new(0, 0, 0);
    let geo = ecl.minus(earth);

    let eq = ecliptic_to_equatorial(geo);
    let ra = (eq.y as f64).atan2(eq.x as f64);
    let len = ((eq.x as f64).powi(2) + (eq.y as f64).powi(2) + (eq.z as f64).powi(2)).sqrt();
    let dec = (eq.z as f64 / len).asin();

    let ha = hour_angle(lst, rad_to_units(ra));
    let h = equatorial_to_horizontal(
        trig_of_rad(dec),
        trig_of_rad(0.0),
        trig_of_rad(units_to_rad(ha)),
    );
    let alt_rad = (h.altitude_sine as f64 / TRIG_SCALE as f64).clamp(-1.0, 1.0).asin();
    let alt_units = rad_to_units(alt_rad).min(QUARTER_TURN);
    let az_rad = (h.azimuth_y as f64).atan2(h.azimuth_x as f64);
    let az = trig_of_rad(az_rad);

    let g: DomeGeometry = dome_geometry(1_000_000, 1_000_000);
    let pointer = ScreenPoint { x: 0, y: 0 };
    let m = plan_body_marker(alt_units, az, g, pointer).unwrap();
    // Within one pixel (1000 milli-pixels) of the center.
    assert!((m.position.x - g.center.x).abs() <= 1000);
    assert!((m.position.y - g.center.y).abs() <= 1000);
}

#[test]
fn test_horizontal_matches_reference_formula() {
    // A non-degenerate configuration, compared against the classical
    // floating-point formulas (altitude by arcsine, azimuth through the
    // tangent form) evaluated directly.
    let two_pi = 2.0 * std::f64::consts::PI;
    for (dec_deg, lat_deg, ha_deg) in [
        (23.5f64, 40.7f64, 50.0f64),
        (-12.25, 40.7, 310.0),
        (61.0, -33.45, 200.5),
    ] {
        let dec = dec_deg.to_radians();
        let lat = lat_deg.to_radians();
        let ha = ha_deg.to_radians();
        let h = equatorial_to_horizontal(trig_of_rad(dec), trig_of_rad(lat), trig_of_rad(ha));

        let alt_ref = (dec.sin() * lat.sin() + dec.cos() * lat.cos() * ha.cos()).asin();
        let az_ref = ha
            .sin()
            .atan2(ha.cos() * lat.sin() - dec.tan() * lat.cos())
            .rem_euclid(two_pi);

        let alt = (h.altitude_sine as f64 / TRIG_SCALE as f64).clamp(-1.0, 1.0).asin();
        let az = (h.azimuth_y as f64).atan2(h.azimuth_x as f64).rem_euclid(two_pi);
        assert!((alt - alt_ref).abs() < 1e-9);
        assert!((az - az_ref).abs() < 1e-9);
    }
}
