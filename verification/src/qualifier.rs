//! The qualifier is the single data type carried by an attribute: a scalar or
//! a short vector of scalars, as it appears in a shader's source.
//!
//! Floating-point components are carried as the bit pattern of an IEEE-754
//! single (`u32`); the library never computes with them, it only hands them
//! through to the renderer in the right order.

use vstd::prelude::*;

verus! {

/// One component of a qualifier, as it is handed to the renderer: either an
/// integer still to be widened to a float by the caller, or the bit pattern
/// of a single-precision float.
#[derive(Clone, Copy, Debug, PartialEq, Eq, Structural)]
pub enum Scalar {
    Int(i32),
    Float(u32),
}

/// A scalar or short vector, the unit of attribute data.  The `f`-suffixed
/// variants carry single-precision bit patterns.
#[derive(Clone, Copy, Debug, PartialEq, Eq, Structural)]
pub enum Qualifier {
    Int(i32),
    Float(u32),
    Vec2(i32, i32),
    Vec3(i32, i32, i32),
    Vec2f(u32, u32),
    Vec3f(u32, u32, u32),
    Vec4f(u32, u32, u32, u32),
}

impl Qualifier {
    /// The components of this qualifier, in the order a shader reads them.
    pub open spec fn components(self) -> Seq<Scalar> {
        match self {
            Qualifier::Int(a) => seq![Scalar::Int(a)],
            Qualifier::Float(a) => seq![Scalar::Float(a)],
            Qualifier::Vec2(a, b) => seq![Scalar::Int(a), Scalar::Int(b)],
            Qualifier::Vec3(a, b, c) => seq![Scalar::Int(a), Scalar::Int(b), Scalar::Int(c)],
            Qualifier::Vec2f(a, b) => seq![Scalar::Float(a), Scalar::Float(b)],
            Qualifier::Vec3f(a, b, c) => seq![
                Scalar::Float(a),
                Scalar::Float(b),
                Scalar::Float(c),
            ],
            Qualifier::Vec4f(a, b, c, d) => seq![
                Scalar::Float(a),
                Scalar::Float(b),
                Scalar::Float(c),
                Scalar::Float(d),
            ],
        }
    }

    /// Flattens the qualifier into the component vector that is uploaded to
    /// the renderer.
    pub fn to_vec(&self) -> (r: Vec<Scalar>)
        ensures
            r@ == self.components(),
    {
        let r: Vec<Scalar> = match self {
            Qualifier::Int(a) => vec![Scalar::Int(*a)],
            Qualifier::Float(a) => vec![Scalar::Float(*a)],
            Qualifier::Vec2(a, b) => vec![Scalar::Int(*a), Scalar::Int(*b)],
            Qualifier::Vec3(a, b, c) => vec![Scalar::Int(*a), Scalar::Int(*b), Scalar::Int(*c)],
            Qualifier::Vec2f(a, b) => vec![Scalar::Float(*a), Scalar::Float(*b)],
            Qualifier::Vec3f(a, b, c) => vec![
                Scalar::Float(*a),
                Scalar::Float(*b),
                Scalar::Float(*c),
            ],
            Qualifier::Vec4f(a, b, c, d) => vec![
                Scalar::Float(*a),
                Scalar::Float(*b),
                Scalar::Float(*c),
                Scalar::Float(*d),
            ],
        };
        proof {
            assert(r@ =~= self.components());
        }
        r
    }
}

impl core::convert::From<i32> for Qualifier {
    fn from(item: i32) -> Self {
        Qualifier::Int(item)
    }
}

impl vstd::std_specs::convert::FromSpecImpl<i32> for Qualifier {
    open spec fn obeys_from_spec() -> bool {
        true
    }

    open spec fn from_spec(item: i32) -> Self {
        Qualifier::Int(item)
    }
}

impl core::convert::From<[i32; 1]> for Qualifier {
    fn from(item: [i32; 1]) -> Self {
        Qualifier::Int(item[0])
    }
}

impl vstd::std_specs::convert::FromSpecImpl<[i32; 1]> for Qualifier {
    open spec fn obeys_from_spec() -> bool {
        true
    }

    open spec fn from_spec(item: [i32; 1]) -> Self {
        Qualifier::Int(item[0])
    }
}

impl core::convert::From<[i32; 2]> for Qualifier {
    fn from(item: [i32; 2]) -> Self {
        Qualifier::Vec2(item[0], item[1])
    }
}

impl vstd::std_specs::convert::FromSpecImpl<[i32; 2]> for Qualifier {
    open spec fn obeys_from_spec() -> bool {
        true
    }

    open spec fn from_spec(item: [i32; 2]) -> Self {
        Qualifier::Vec2(item[0], item[1])
    }
}

impl core::convert::From<[i32; 3]> for Qualifier {
    fn from(item: [i32; 3]) -> Self {
        Qualifier::Vec3(item[0], item[1], item[2])
    }
}

impl vstd::std_specs::convert::FromSpecImpl<[i32; 3]> for Qualifier {
    open spec fn obeys_from_spec() -> bool {
        true
    }

    open spec fn from_spec(item: [i32; 3]) -> Self {
        Qualifier::Vec3(item[0], item[1], item[2])
    }
}

impl Qualifier {
    /// A single-precision scalar, given as its bit pattern.
    pub fn float_from_bits(bits: u32) -> (r: Self)
        ensures
            r == Qualifier::Float(bits),
    {
        Qualifier::Float(bits)
    }

    /// A two-component single-precision vector, given as bit patterns.
    pub fn vec2f_from_bits(a: u32, b: u32) -> (r: Self)
        ensures
            r == Qualifier::Vec2f(a, b),
    {
        Qualifier::Vec2f(a, b)
    }

    /// A three-component single-precision vector, given as bit patterns.
    pub fn vec3f_from_bits(a: u32, b: u32, c: u32) -> (r: Self)
        ensures
            r == Qualifier::Vec3f(a, b, c),
    {
        Qualifier::Vec3f(a, b, c)
    }

    /// A four-component single-precision vector, given as bit patterns.
    pub fn vec4f_from_bits(a: u32, b: u32, c: u32, d: u32) -> (r: Self)
        ensures
            r == Qualifier::Vec4f(a, b, c, d),
    {
        Qualifier::Vec4f(a, b, c, d)
    }
}

} // verus!
