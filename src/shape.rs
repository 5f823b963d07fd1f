//! The five primitive shapes that the viewer can display, their names and
//! the dimensions of the mesh that is built for each.
use vstd::prelude::*;
use vstd::string::StrSliceExecFns;

verus! {

/// Number of shapes offered by the selector.
pub const SHAPE_COUNT: usize = 5;

/// A primitive shape, in the order in which the selector lists them.
#[derive(Clone, Copy, Debug, PartialEq, Eq, Structural)]
pub enum Shape {
    Cube,
    Sphere,
    Cylinder,
    Torus,
    Cone,
}

/// Mesh parameters of a primitive, in hundredths of a world unit.
#[derive(Clone, Copy, Debug, PartialEq, Eq, Structural)]
pub enum Primitive {
    Cuboid { x: u32, y: u32, z: u32 },
    Sphere { radius: u32 },
    Cylinder { radius: u32, height: u32 },
    Torus { inner_radius: u32, outer_radius: u32 },
    Cone { radius: u32, height: u32 },
}

/// The shape at position `i` of the selector, if there is one.
pub open spec fn shape_at(i: int) -> Option<Shape> {
    if i == 0 {
        Some(Shape::Cube)
    } else if i == 1 {
        Some(Shape::Sphere)
    } else if i == 2 {
        Some(Shape::Cylinder)
    } else if i == 3 {
        Some(Shape::Torus)
    } else if i == 4 {
        Some(Shape::Cone)
    } else {
        None
    }
}

/// The shape whose display name is `s`, if any.
pub open spec fn shape_named(s: Seq<char>) -> Option<Shape> {
    if s == "Cube"@ {
        Some(Shape::Cube)
    } else if s == "Sphere"@ {
        Some(Shape::Sphere)
    } else if s == "Cylinder"@ {
        Some(Shape::Cylinder)
    } else if s == "Torus"@ {
        Some(Shape::Torus)
    } else if s == "Cone"@ {
        Some(Shape::Cone)
    } else {
        None
    }
}

impl Shape {
    pub open spec fn spec_index(self) -> nat {
        match self {
            Shape::Cube => 0,
            Shape::Sphere => 1,
            Shape::Cylinder => 2,
            Shape::Torus => 3,
            Shape::Cone => 4,
        }
    }

    pub open spec fn spec_name(self) -> Seq<char> {
        match self {
            Shape::Cube => "Cube"@,
            Shape::Sphere => "Sphere"@,
            Shape::Cylinder => "Cylinder"@,
            Shape::Torus => "Torus"@,
            Shape::Cone => "Cone"@,
        }
    }

    pub open spec fn spec_primitive(self) -> Primitive {
        match self {
            Shape::Cube => Primitive::Cuboid { x: 100, y: 100, z: 100 },
            Shape::Sphere => Primitive::Sphere { radius: 50 },
            Shape::Cylinder => Primitive::Cylinder { radius: 50, height: 100 },
            Shape::Torus => Primitive::Torus { inner_radius: 30, outer_radius: 80 },
            Shape::Cone => Primitive::Cone { radius: 50, height: 100 },
        }
    }

    /// Position of this shape in the selector.
    pub fn index(&self) -> (r: usize)
        ensures
            r == self.spec_index(),
            r < SHAPE_COUNT,
            shape_at(r as int) == Some(*self),
    {
        match self {
            Shape::Cube => 0,
            Shape::Sphere => 1,
            Shape::Cylinder => 2,
            Shape::Torus => 3,
            Shape::Cone => 4,
        }
    }

    /// The shape at position `i` of the selector; `None` past the last one.
    pub fn at(i: usize) -> (r: Option<Shape>)
        ensures
            r == shape_at(i as int),
            r.is_some() <==> i < SHAPE_COUNT,
            r matches Some(s) ==> s.spec_index() == i,
    {
        if i == 0 {
            Some(Shape::Cube)
        } else if i == 1 {
            Some(Shape::Sphere)
        } else if i == 2 {
            Some(Shape::Cylinder)
        } else if i == 3 {
            Some(Shape::Torus)
        } else if i == 4 {
            Some(Shape::Cone)
        } else {
            None
        }
    }

    /// The display name of the shape.
    pub fn name(&self) -> (r: &'static str)
        ensures
            r@ == self.spec_name(),
    {
        match self {
            Shape::Cube => "Cube",
            Shape::Sphere => "Sphere",
            Shape::Cylinder => "Cylinder",
            Shape::Torus => "Torus",
            Shape::Cone => "Cone",
        }
    }

    /// The shape with display name `name`; `None` for any other text.
    pub fn from_name(name: &str) -> (r: Option<Shape>)
        ensures
            r == shape_named(name@),
    {
        if str_equal(name, "Cube") {
            Some(Shape::Cube)
        } else if str_equal(name, "Sphere") {
            Some(Shape::Sphere)
        } else if str_equal(name, "Cylinder") {
            Some(Shape::Cylinder)
        } else if str_equal(name, "Torus") {
            Some(Shape::Torus)
        } else if str_equal(name, "Cone") {
            Some(Shape::Cone)
        } else {
            None
        }
    }

    /// Dimensions of the mesh built for this shape.
    pub fn primitive(&self) -> (r: Primitive)
        ensures
            r == self.spec_primitive(),
    {
        match self {
            Shape::Cube => Primitive::Cuboid { x: 100, y: 100, z: 100 },
            Shape::Sphere => Primitive::Sphere { radius: 50 },
            Shape::Cylinder => Primitive::Cylinder { radius: 50, height: 100 },
            Shape::Torus => Primitive::Torus { inner_radius: 30, outer_radius: 80 },
            Shape::Cone => Primitive::Cone { radius: 50, height: 100 },
        }
    }
}

/// Character-by-character comparison of two strings.
pub fn str_equal(a: &str, b: &str) -> (r: bool)
    ensures
        r == (a@ == b@),
{
    let n: usize = a.unicode_len();
    let m: usize = b.unicode_len();
    if n != m {
        return false;
    }
    let mut i: usize = 0;
    while i < n
        invariant
            n == a@.len(),
            m == b@.len(),
            n == m,
            i <= n,
            a@.subrange(0, i as int) == b@.subrange(0, i as int),
        decreases n - i,
    {
        if a.get_char(i) != b.get_char(i) {
            assert(a@[i as int] != b@[i as int]);
            return false;
        }
        assert(a@.subrange(0, i + 1) == a@.subrange(0, i as int).push(a@[i as int]));
        assert(b@.subrange(0, i + 1) == b@.subrange(0, i as int).push(b@[i as int]));
        i = i + 1;
    }
    assert(a@ == a@.subrange(0, n as int));
    assert(b@ == b@.subrange(0, n as int));
    true
}

} // verus!
