//! A uniform is a named shader parameter: an integer or double-precision
//! scalar or short vector, optionally driven by a per-frame updater.
//!
//! Double-precision components are carried as IEEE-754 bit patterns (`u64`);
//! the library hands them through without computing on them.  A uniform whose
//! value is recomputed each frame is marked dynamic; the updater itself is a
//! closure of the embedding program, which only tells the library that one
//! exists.

use vstd::prelude::*;

verus! {

/// The value of a uniform and, per variant, whether an updater drives it.
///
/// The `i` variants carry integers, the `f` variants double-precision bit
/// patterns.  The final `bool` says whether the uniform is dynamic.
#[derive(Clone, Copy, Debug, PartialEq, Eq, Structural)]
pub enum UniformInner {
    Uniform1i(i32, bool),
    Uniform1f(u64, bool),
    Uniform2i(i32, i32, bool),
    Uniform2f(u64, u64, bool),
    Uniform3i(i32, i32, i32, bool),
    Uniform3f(u64, u64, u64, bool),
    Uniform4i(i32, i32, i32, i32, bool),
    Uniform4f(u64, u64, u64, u64, bool),
}

impl UniformInner {
    /// Whether an updater recomputes this uniform each frame.
    pub open spec fn is_dynamic_spec(self) -> bool {
        match self {
            UniformInner::Uniform1i(_, d) => d,
            UniformInner::Uniform1f(_, d) => d,
            UniformInner::Uniform2i(_, _, d) => d,
            UniformInner::Uniform2f(_, _, d) => d,
            UniformInner::Uniform3i(_, _, _, d) => d,
            UniformInner::Uniform3f(_, _, _, d) => d,
            UniformInner::Uniform4i(_, _, _, _, d) => d,
            UniformInner::Uniform4f(_, _, _, _, d) => d,
        }
    }

    /// Whether an updater recomputes this uniform each frame.
    pub fn is_dynamic(&self) -> (r: bool)
        ensures
            r == self.is_dynamic_spec(),
    {
        match self {
            UniformInner::Uniform1i(_, d) => *d,
            UniformInner::Uniform1f(_, d) => *d,
            UniformInner::Uniform2i(_, _, d) => *d,
            UniformInner::Uniform2f(_, _, d) => *d,
            UniformInner::Uniform3i(_, _, _, d) => *d,
            UniformInner::Uniform3f(_, _, _, d) => *d,
            UniformInner::Uniform4i(_, _, _, _, d) => *d,
            UniformInner::Uniform4f(_, _, _, _, d) => *d,
        }
    }

    /// A double-precision scalar, given as its bit pattern.
    pub fn uniform1f_from_bits(a: u64) -> (r: Self)
        ensures
            r == UniformInner::Uniform1f(a, false),
    {
        UniformInner::Uniform1f(a, false)
    }

    /// A two-component double-precision vector, given as bit patterns.
    pub fn uniform2f_from_bits(a: u64, b: u64) -> (r: Self)
        ensures
            r == UniformInner::Uniform2f(a, b, false),
    {
        UniformInner::Uniform2f(a, b, false)
    }

    /// A three-component double-precision vector, given as bit patterns.
    pub fn uniform3f_from_bits(a: u64, b: u64, c: u64) -> (r: Self)
        ensures
            r == UniformInner::Uniform3f(a, b, c, false),
    {
        UniformInner::Uniform3f(a, b, c, false)
    }

    /// A four-component double-precision vector, given as bit patterns.
    pub fn uniform4f_from_bits(a: u64, b: u64, c: u64, d: u64) -> (r: Self)
        ensures
            r == UniformInner::Uniform4f(a, b, c, d, false),
    {
        UniformInner::Uniform4f(a, b, c, d, false)
    }

    /// Marks this uniform as driven by a per-frame updater that the
    /// embedding program holds.
    pub fn with_updater(self) -> (r: Self)
        ensures
            r == self.with_updater_spec(),
    {
        match self {
            UniformInner::Uniform1i(a, _) => UniformInner::Uniform1i(a, true),
            UniformInner::Uniform1f(a, _) => UniformInner::Uniform1f(a, true),
            UniformInner::Uniform2i(a, b, _) => UniformInner::Uniform2i(a, b, true),
            UniformInner::Uniform2f(a, b, _) => UniformInner::Uniform2f(a, b, true),
            UniformInner::Uniform3i(a, b, c, _) => UniformInner::Uniform3i(a, b, c, true),
            UniformInner::Uniform3f(a, b, c, _) => UniformInner::Uniform3f(a, b, c, true),
            UniformInner::Uniform4i(a, b, c, d, _) => UniformInner::Uniform4i(a, b, c, d, true),
            UniformInner::Uniform4f(a, b, c, d, _) => UniformInner::Uniform4f(a, b, c, d, true),
        }
    }

    /// The same value, marked dynamic.
    pub open spec fn with_updater_spec(self) -> Self {
        match self {
            UniformInner::Uniform1i(a, _) => UniformInner::Uniform1i(a, true),
            UniformInner::Uniform1f(a, _) => UniformInner::Uniform1f(a, true),
            UniformInner::Uniform2i(a, b, _) => UniformInner::Uniform2i(a, b, true),
            UniformInner::Uniform2f(a, b, _) => UniformInner::Uniform2f(a, b, true),
            UniformInner::Uniform3i(a, b, c, _) => UniformInner::Uniform3i(a, b, c, true),
            UniformInner::Uniform3f(a, b, c, _) => UniformInner::Uniform3f(a, b, c, true),
            UniformInner::Uniform4i(a, b, c, d, _) => UniformInner::Uniform4i(a, b, c, d, true),
            UniformInner::Uniform4f(a, b, c, d, _) => UniformInner::Uniform4f(a, b, c, d, true),
        }
    }
}

impl core::convert::From<i32> for UniformInner {
    fn from(item: i32) -> Self {
        UniformInner::Uniform1i(item, false)
    }
}

impl vstd::std_specs::convert::FromSpecImpl<i32> for UniformInner {
    open spec fn obeys_from_spec() -> bool {
        true
    }

    open spec fn from_spec(item: i32) -> Self {
        UniformInner::Uniform1i(item, false)
    }
}

impl core::convert::From<[i32; 2]> for UniformInner {
    fn from(item: [i32; 2]) -> Self {
        UniformInner::Uniform2i(item[0], item[1], false)
    }
}

impl vstd::std_specs::convert::FromSpecImpl<[i32; 2]> for UniformInner {
    open spec fn obeys_from_spec() -> bool {
        true
    }

    open spec fn from_spec(item: [i32; 2]) -> Self {
        UniformInner::Uniform2i(item[0], item[1], false)
    }
}

impl core::convert::From<[i32; 3]> for UniformInner {
    fn from(item: [i32; 3]) -> Self {
        UniformInner::Uniform3i(item[0], item[1], item[2], false)
    }
}

impl vstd::std_specs::convert::FromSpecImpl<[i32; 3]> for UniformInner {
    open spec fn obeys_from_spec() -> bool {
        true
    }

    open spec fn from_spec(item: [i32; 3]) -> Self {
        UniformInner::Uniform3i(item[0], item[1], item[2], false)
    }
}

/// The mathematical content of a [`Uniform`]: its name and its value.
pub ghost struct UniformModel {
    pub name: Seq<char>,
    pub data: UniformInner,
}

/// A named shader parameter.
#[derive(Clone, Debug)]
pub struct Uniform {
    name: String,
    data: UniformInner,
}

impl View for Uniform {
    type V = UniformModel;

    closed spec fn view(&self) -> UniformModel {
        UniformModel { name: self.name@, data: self.data }
    }
}

impl Uniform {
    /// Builds a uniform from a name and its value.
    pub fn new(name: String, data: UniformInner) -> (r: Self)
        ensures
            r@.name == name@,
            r@.data == data,
    {
        Uniform { name, data }
    }

    /// The name under which a shader declares this uniform.
    pub fn get_name(&self) -> (r: &String)
        ensures
            r@ == self@.name,
    {
        &self.name
    }

    /// The value of this uniform.
    pub fn get_data(&self) -> (r: UniformInner)
        ensures
            r == self@.data,
    {
        self.data
    }
}

/// The uniform that `Uniform::from` builds out of a name and a value.
pub closed spec fn uniform_from_pair(uniform: (String, UniformInner)) -> Uniform {
    Uniform { name: uniform.0, data: uniform.1 }
}

/// What `uniform_from_pair` builds: the first half of the pair becomes the
/// name, the second the value.
pub proof fn lemma_uniform_from_pair(uniform: (String, UniformInner))
    ensures
        uniform_from_pair(uniform)@.name == uniform.0@,
        uniform_from_pair(uniform)@.data == uniform.1,
{
}

impl core::convert::From<(String, UniformInner)> for Uniform {
    fn from(uniform: (String, UniformInner)) -> Self {
        Uniform { name: uniform.0, data: uniform.1 }
    }
}

impl vstd::std_specs::convert::FromSpecImpl<(String, UniformInner)> for Uniform {
    open spec fn obeys_from_spec() -> bool {
        true
    }

    open spec fn from_spec(uniform: (String, UniformInner)) -> Self {
        uniform_from_pair(uniform)
    }
}

} // verus!
