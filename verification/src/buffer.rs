//! What the context registers under a name: for an attribute, the uploaded
//! scalar data, the buffer handle and the attribute location; for a uniform,
//! its value and the handle of its resolved location.

use vstd::prelude::*;

use crate::qualifier::Scalar;
use crate::uniform::UniformInner;

verus! {

/// The mathematical content of a [`BufferInternal`].
pub ghost enum BufferInternalModel {
    Attribute(Seq<Scalar>, u32),
    Uniform(UniformInner, u32),
}

/// The payload registered under a name: attribute data with its resolved
/// location, or a uniform value with the handle of its resolved location.
#[derive(Debug, PartialEq)]
pub enum BufferInternal {
    Attribute(Vec<Scalar>, u32),
    Uniform(UniformInner, u32),
}

impl View for BufferInternal {
    type V = BufferInternalModel;

    open spec fn view(&self) -> BufferInternalModel {
        match self {
            BufferInternal::Attribute(data, location) => BufferInternalModel::Attribute(
                data@,
                *location,
            ),
            BufferInternal::Uniform(data, location) => BufferInternalModel::Uniform(
                *data,
                *location,
            ),
        }
    }
}

impl BufferInternal {
    /// The attribute data and its location.  Only an attribute payload has
    /// them; the pipeline never asks a uniform payload.
    pub fn get_attribute(&self) -> (r: (&Vec<Scalar>, &u32))
        requires
            self@ is Attribute,
        ensures
            self@ == BufferInternalModel::Attribute(r.0@, *r.1),
    {
        match self {
            BufferInternal::Attribute(data, location) => (data, location),
            BufferInternal::Uniform(_, _) => unreached(),
        }
    }

    /// The uniform value and the handle of its location.  Only a uniform
    /// payload has them; the pipeline never asks an attribute payload.
    pub fn get_uniform(&self) -> (r: (&UniformInner, &u32))
        requires
            self@ is Uniform,
        ensures
            self@ == BufferInternalModel::Uniform(*r.0, *r.1),
    {
        match self {
            BufferInternal::Attribute(_, _) => unreached(),
            BufferInternal::Uniform(data, location) => (data, location),
        }
    }
}

/// The mathematical content of a [`Buffer`].
pub ghost struct BufferModel {
    pub buffer: Option<u32>,
    pub data: BufferInternalModel,
    pub count: i32,
}

/// A registered entry: an optional buffer handle, the payload, and the
/// per-vertex component count an attribute is drawn with.
#[derive(Debug, PartialEq)]
pub struct Buffer {
    buffer: Option<u32>,
    data: BufferInternal,
    count: i32,
}

impl View for Buffer {
    type V = BufferModel;

    closed spec fn view(&self) -> BufferModel {
        BufferModel { buffer: self.buffer, data: self.data@, count: self.count }
    }
}

impl Buffer {
    /// Builds an entry from its parts.
    pub fn new(buffer: Option<u32>, data: BufferInternal, count: i32) -> (r: Self)
        ensures
            r@ == (BufferModel { buffer, data: data@, count }),
    {
        Self { buffer, data, count }
    }

    /// The buffer handle, if the entry has one.
    pub fn get_buffer(&self) -> (r: Option<&u32>)
        ensures
            match r {
                Some(h) => self@.buffer == Some(*h),
                None => self@.buffer is None,
            },
    {
        self.buffer.as_ref()
    }

    /// The registered payload.
    pub fn get_data(&self) -> (r: &BufferInternal)
        ensures
            r@ == self@.data,
    {
        &self.data
    }

    /// The per-vertex component count.
    pub fn get_count(&self) -> (r: &i32)
        ensures
            *r == self@.count,
    {
        &self.count
    }
}

} // verus!
