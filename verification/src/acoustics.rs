//! Geometric vocabulary of the urn resonators.

use vstd::prelude::*;

verus! {

/// Shape of an urn cavity.
#[derive(Debug, Clone, Copy, PartialEq, Eq)]
pub enum UrnShape {
    Spherical,
    Cylindrical,
    Ellipsoidal,
    Irregular,
}

/// Kind of a cavity resonance mode, with its order where it has one.
#[derive(Debug, Clone, Copy, PartialEq, Eq)]
pub enum CavityModeType {
    Helmholtz,
    Axial(u32),
    Azimuthal(u32),
    Radial(u32),
}

/// The shape a configuration name denotes: the capitalized or lower-case
/// name of a shape, and spherical for any other text.
pub open spec fn shape_named(name: Seq<char>) -> UrnShape {
    if name == "Spherical"@ || name == "spherical"@ {
        UrnShape::Spherical
    } else if name == "Cylindrical"@ || name == "cylindrical"@ {
        UrnShape::Cylindrical
    } else if name == "Ellipsoidal"@ || name == "ellipsoidal"@ {
        UrnShape::Ellipsoidal
    } else if name == "Irregular"@ || name == "irregular"@ {
        UrnShape::Irregular
    } else {
        UrnShape::Spherical
    }
}

/// Whether two strings hold the same characters.
pub fn str_eq(a: &str, b: &str) -> (r: bool)
    ensures
        r == (a@ == b@),
{
    let x = String::from_str(a);
    let y = String::from_str(b);
    x == y
}

/// Reads an urn shape from its configuration name, falling back to
/// spherical for names it does not know.
pub fn parse_shape(s: &str) -> (shape: UrnShape)
    ensures
        shape == shape_named(s@),
{
    if str_eq(s, "Spherical") || str_eq(s, "spherical") {
        UrnShape::Spherical
    } else if str_eq(s, "Cylindrical") || str_eq(s, "cylindrical") {
        UrnShape::Cylindrical
    } else if str_eq(s, "Ellipsoidal") || str_eq(s, "ellipsoidal") {
        UrnShape::Ellipsoidal
    } else if str_eq(s, "Irregular") || str_eq(s, "irregular") {
        UrnShape::Irregular
    } else {
        UrnShape::Spherical
    }
}

/// Each shape is read from its capitalized and from its lower-case name and
/// from no other name, except that spherical is also the fallback for every
/// name that is none of the eight.
pub proof fn lemma_shape_names(name: Seq<char>)
    ensures
        (shape_named(name) == UrnShape::Cylindrical) <==> (name == "Cylindrical"@ || name == "cylindrical"@),
        (shape_named(name) == UrnShape::Ellipsoidal) <==> (name == "Ellipsoidal"@ || name == "ellipsoidal"@),
        (shape_named(name) == UrnShape::Irregular) <==> (name == "Irregular"@ || name == "irregular"@),
        (shape_named(name) == UrnShape::Spherical) <==> !(name == "Cylindrical"@ || name == "cylindrical"@
            || name == "Ellipsoidal"@ || name == "ellipsoidal"@ || name == "Irregular"@ || name == "irregular"@),
{
    reveal_strlit("Spherical");
    reveal_strlit("spherical");
    reveal_strlit("Cylindrical");
    reveal_strlit("cylindrical");
    reveal_strlit("Ellipsoidal");
    reveal_strlit("ellipsoidal");
    reveal_strlit("Irregular");
    reveal_strlit("irregular");
    assert("Spherical"@[0] != "Cylindrical"@[0]);
    assert("spherical"@[0] != "cylindrical"@[0]);
    assert("Spherical"@[0] != "cylindrical"@[0]);
    assert("spherical"@[0] != "Cylindrical"@[0]);
    assert("Spherical"@[0] != "Ellipsoidal"@[0]);
    assert("spherical"@[0] != "ellipsoidal"@[0]);
    assert("Spherical"@[0] != "ellipsoidal"@[0]);
    assert("spherical"@[0] != "Ellipsoidal"@[0]);
    assert("Spherical"@[0] != "Irregular"@[0]);
    assert("spherical"@[0] != "irregular"@[0]);
    assert("Spherical"@[0] != "irregular"@[0]);
    assert("spherical"@[0] != "Irregular"@[0]);
    assert("Cylindrical"@[0] != "Ellipsoidal"@[0]);
    assert("cylindrical"@[0] != "ellipsoidal"@[0]);
    assert("Cylindrical"@[0] != "ellipsoidal"@[0]);
    assert("cylindrical"@[0] != "Ellipsoidal"@[0]);
    assert("Cylindrical"@[0] != "Irregular"@[0]);
    assert("cylindrical"@[0] != "irregular"@[0]);
    assert("Cylindrical"@[0] != "irregular"@[0]);
    assert("cylindrical"@[0] != "Irregular"@[0]);
    assert("Ellipsoidal"@[0] != "Irregular"@[0]);
    assert("ellipsoidal"@[0] != "irregular"@[0]);
    assert("Ellipsoidal"@[0] != "irregular"@[0]);
    assert("ellipsoidal"@[0] != "Irregular"@[0]);
}

} // verus!
