//! Verified core of an interactive sky map.
//!
//! Given an observer's location and the current time, the library carries a
//! celestial body's position through the coordinate pipeline — ecliptic frame
//! to equatorial frame, equatorial to local horizontal — and projects it onto
//! a circular dome view with pointer-proximity highlighting.
//!
//! Every quantity is held in fixed-point integer units (angles in 1e-11
//! degree, trigonometric ratios scaled by 1e12, screen lengths in
//! milli-pixels), so that each step is exact integer arithmetic with a proved
//! contract.  Evaluating the transcendental functions themselves (sine,
//! cosine, arcsine, arctangent) is left to the unverified host layer, which
//! hands their values in as scaled integers.

pub mod angle;
pub mod bodies;
pub mod horizontal;
pub mod projection;
pub mod sidereal;
pub mod transform;
pub mod trig;
pub mod vector;
