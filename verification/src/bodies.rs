use vstd::prelude::*;
use crate::vector::{EclipticVector, VECTOR_BOUND};

verus! {

broadcast use vstd::string::group_string_axioms;

/// The fixed set of tracked bodies: the Sun, the seven planets other than
/// Earth, and the Moon.
#[derive(Clone, Copy, PartialEq, Eq, Structural, Debug)]
pub enum BodyId {
    Sun,
    Mercury,
    Venus,
    Mars,
    Jupiter,
    Saturn,
    Uranus,
    Neptune,
    Moon,
}

/// The display name of a body.
pub open spec fn spec_name(id: BodyId) -> Seq<char> {
    match id {
        BodyId::Sun => "Sun"@,
        BodyId::Mercury => "Mercury"@,
        BodyId::Venus => "Venus"@,
        BodyId::Mars => "Mars"@,
        BodyId::Jupiter => "Jupiter"@,
        BodyId::Saturn => "Saturn"@,
        BodyId::Uranus => "Uranus"@,
        BodyId::Neptune => "Neptune"@,
        BodyId::Moon => "Moon"@,
    }
}

/// The display color of a body, as a hex color string.
pub open spec fn spec_color(id: BodyId) -> Seq<char> {
    match id {
        BodyId::Sun => "#FFFFFF"@,
        BodyId::Mercury => "#DBBC7F"@,
        BodyId::Venus => "#E69875"@,
        BodyId::Mars => "#E67E80"@,
        BodyId::Jupiter => "#D3C6AA"@,
        BodyId::Saturn => "#D699B6"@,
        BodyId::Uranus => "#83C092"@,
        BodyId::Neptune => "#7FBBB3"@,
        BodyId::Moon => "#9DA9A0"@,
    }
}

/// A catalog entry: which body it is, with its display name and color.
/// The ephemeris function that supplies the body's position lives in the
/// host layer, keyed by `id`.
pub struct Body {
    pub id: BodyId,
    pub name: String,
    pub color: String,
}

impl Body {
    /// A well-formed entry carries the name and color that belong to its id.
    pub open spec fn wf(self) -> bool {
        &&& self.name@ == spec_name(self.id)
        &&& self.color@ == spec_color(self.id)
    }

    /// Build the catalog entry for one body.
    pub fn new(id: BodyId) -> (b: Body)
        ensures
            b.id == id,
            b.wf(),
    {
        let name: String = match id {
            BodyId::Sun => "Sun".to_string(),
            BodyId::Mercury => "Mercury".to_string(),
            BodyId::Venus => "Venus".to_string(),
            BodyId::Mars => "Mars".to_string(),
            BodyId::Jupiter => "Jupiter".to_string(),
            BodyId::Saturn => "Saturn".to_string(),
            BodyId::Uranus => "Uranus".to_string(),
            BodyId::Neptune => "Neptune".to_string(),
            BodyId::Moon => "Moon".to_string(),
        };
        let color: String = match id {
            BodyId::Sun => "#FFFFFF".to_string(),
            BodyId::Mercury => "#DBBC7F".to_string(),
            BodyId::Venus => "#E69875".to_string(),
            BodyId::Mars => "#E67E80".to_string(),
            BodyId::Jupiter => "#D3C6AA".to_string(),
            BodyId::Saturn => "#D699B6".to_string(),
            BodyId::Uranus => "#83C092".to_string(),
            BodyId::Neptune => "#7FBBB3".to_string(),
            BodyId::Moon => "#9DA9A0".to_string(),
        };
        Body { id, name, color }
    }
}

/// The id that the catalog holds at each position.
pub open spec fn catalog_order(i: int) -> BodyId {
    if i == 0 { BodyId::Sun }
    else if i == 1 { BodyId::Mercury }
    else if i == 2 { BodyId::Venus }
    else if i == 3 { BodyId::Mars }
    else if i == 4 { BodyId::Jupiter }
    else if i == 5 { BodyId::Saturn }
    else if i == 6 { BodyId::Uranus }
    else if i == 7 { BodyId::Neptune }
    else { BodyId::Moon }
}

/// The full catalog, in its fixed drawing order: Sun, the planets from
/// Mercury outward, then the Moon.  Nine entries, each well formed.
pub fn get_bodies() -> (v: Vec<Body>)
    ensures
        v@.len() == 9,
        forall|i: int| 0 <= i < 9 ==> (#[trigger] v@[i]).id == catalog_order(i),
        forall|i: int| 0 <= i < 9 ==> (#[trigger] v@[i]).wf(),
{
    let mut v: Vec<Body> = Vec::new();
    v.push(Body::new(BodyId::Sun));
    v.push(Body::new(BodyId::Mercury));
    v.push(Body::new(BodyId::Venus));
    v.push(Body::new(BodyId::Mars));
    v.push(Body::new(BodyId::Jupiter));
    v.push(Body::new(BodyId::Saturn));
    v.push(Body::new(BodyId::Uranus));
    v.push(Body::new(BodyId::Neptune));
    v.push(Body::new(BodyId::Moon));
    v
}

/// The Moon's barycentric position, composed from the two series the
/// ephemeris offers: its position relative to the parent star plus the
/// star's own barycentric position.  This vector sum is a required
/// correctness step, not a convenience — the upstream series alone does
/// not give a barycentric lunar position.
pub fn moon_barycentric(moon_from_sun: EclipticVector, sun_barycentric: EclipticVector) -> (r: EclipticVector)
    requires
        moon_from_sun.bounded(),
        sun_barycentric.bounded(),
    ensures
        r.x == moon_from_sun.x + sun_barycentric.x,
        r.y == moon_from_sun.y + sun_barycentric.y,
        r.z == moon_from_sun.z + sun_barycentric.z,
        r.within(2 * VECTOR_BOUND),
{
    moon_from_sun.plus(sun_barycentric)
}

} // verus!
