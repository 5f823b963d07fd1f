//! Surface materials and the factory that describes a freshly spawned object.
use vstd::prelude::*;

use crate::shape::{shape_named, Shape};

verus! {

/// An sRGB colour, each channel in hundredths (0 to 100).
#[derive(Clone, Copy, Debug, PartialEq, Eq, Structural)]
pub struct Rgb {
    pub r: u8,
    pub g: u8,
    pub b: u8,
}

/// Physically based surface parameters, each in hundredths (0 to 100).
#[derive(Clone, Copy, Debug, PartialEq, Eq, Structural)]
pub struct Material {
    pub base_color: Rgb,
    pub metallic: u8,
    pub roughness: u8,
    pub reflectance: u8,
}

/// Everything needed to spawn the selected object. It always starts at the
/// identity pose: origin, no rotation, unit scale.
#[derive(Clone, Copy, Debug, PartialEq, Eq, Structural)]
pub struct ObjectSpec {
    /// The mesh that is built.
    pub shape: Shape,
    pub material: Material,
    /// Stored with the object, in hundredths; nothing reads it.
    pub rotation_speed: u32,
}

/// Rotation speed given to every spawned object (1.0).
pub const ROTATION_SPEED: u32 = 100;

pub open spec fn material_of(c: (u8, u8, u8), metallic: u8, roughness: u8, reflectance: u8) -> Material {
    Material { base_color: Rgb { r: c.0, g: c.1, b: c.2 }, metallic, roughness, reflectance }
}

/// The material of each shape.
pub open spec fn shape_material(s: Shape) -> Material {
    match s {
        Shape::Cube => material_of((80, 20, 20), 30, 20, 50),
        Shape::Sphere => material_of((20, 80, 20), 40, 10, 60),
        Shape::Cylinder => material_of((20, 20, 80), 20, 30, 40),
        Shape::Torus => material_of((80, 60, 20), 10, 40, 30),
        Shape::Cone => material_of((80, 20, 80), 50, 15, 70),
    }
}

/// The material used for a name that is not one of the shapes.
pub open spec fn fallback_material() -> Material {
    material_of((80, 70, 60), 20, 50, 40)
}

/// What the factory spawns for a shape chosen in the selector.
pub open spec fn shape_object(s: Shape) -> ObjectSpec {
    ObjectSpec { shape: s, material: shape_material(s), rotation_speed: ROTATION_SPEED as u32 }
}

/// What the factory spawns for a name: a known name gives its shape; any
/// other name gives a cube with the fallback material.
pub open spec fn named_object(name: Seq<char>) -> ObjectSpec {
    match shape_named(name) {
        Some(s) => shape_object(s),
        None => ObjectSpec {
            shape: Shape::Cube,
            material: fallback_material(),
            rotation_speed: ROTATION_SPEED as u32,
        },
    }
}

fn make_material(r: u8, g: u8, b: u8, metallic: u8, roughness: u8, reflectance: u8) -> (m: Material)
    ensures
        m == material_of((r, g, b), metallic, roughness, reflectance),
{
    Material { base_color: Rgb { r, g, b }, metallic, roughness, reflectance }
}

impl Shape {
    /// The material of this shape.
    pub fn material(&self) -> (m: Material)
        ensures
            m == shape_material(*self),
    {
        match self {
            Shape::Cube => make_material(80, 20, 20, 30, 20, 50),
            Shape::Sphere => make_material(20, 80, 20, 40, 10, 60),
            Shape::Cylinder => make_material(20, 20, 80, 20, 30, 40),
            Shape::Torus => make_material(80, 60, 20, 10, 40, 30),
            Shape::Cone => make_material(80, 20, 80, 50, 15, 70),
        }
    }

    /// The object spawned when this shape is chosen.
    pub fn spawn_spec(&self) -> (o: ObjectSpec)
        ensures
            o == shape_object(*self),
    {
        ObjectSpec { shape: *self, material: self.material(), rotation_speed: ROTATION_SPEED }
    }
}

/// The object spawned for a shape name; an unknown name falls back to a cube
/// with a neutral material.
pub fn object_spec(name: &str) -> (o: ObjectSpec)
    ensures
        o == named_object(name@),
{
    match Shape::from_name(name) {
        Some(s) => s.spawn_spec(),
        None => ObjectSpec {
            shape: Shape::Cube,
            material: make_material(80, 70, 60, 20, 50, 40),
            rotation_speed: ROTATION_SPEED,
        },
    }
}

} // verus!
