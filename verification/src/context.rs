//! The bookkeeping half of the WebGL context wrapper.
//!
//! A WebGL wrapper pairs every browser call with a decision: whether a
//! program is in place, whether a name resolves to a location, what a draw
//! step must bind.  Those decisions live here, verified, over a state of two
//! name-keyed registries and a program slot.  The browser calls themselves
//! are the embedding program's: it hands their results in (a handle, a
//! resolved location, a status) and carries the returned bindings out.

use vstd::prelude::*;

use crate::buffer::{Buffer, BufferInternal, BufferInternalModel, BufferModel};
use crate::error::RuglError;
use crate::program::Program;
use crate::qualifier::Scalar;
use crate::uniform::UniformInner;
use vstd::hash_map::StringHashMap;

verus! {

/// One fully-resolved uniform binding: the handle of the uniform's location
/// and the components to hand to the matching WebGL call.  The `f` variants
/// carry double-precision bit patterns.
#[derive(Debug, PartialEq, Eq, Clone, Copy, Structural)]
pub enum UniformCall {
    Uniform1i(u32, i32),
    Uniform1f(u32, u64),
    Uniform2i(u32, i32, i32),
    Uniform2f(u32, u64, u64),
    Uniform3i(u32, i32, i32, i32),
    Uniform3f(u32, u64, u64, u64),
    Uniform4i(u32, i32, i32, i32, i32),
    Uniform4f(u32, u64, u64, u64, u64),
}

/// The call that binds `data` at `location`: same arity and kind, with the
/// updater mark dropped.
pub open spec fn call_of(data: UniformInner, location: u32) -> UniformCall {
    match data {
        UniformInner::Uniform1i(a, _) => UniformCall::Uniform1i(location, a),
        UniformInner::Uniform1f(a, _) => UniformCall::Uniform1f(location, a),
        UniformInner::Uniform2i(a, b, _) => UniformCall::Uniform2i(location, a, b),
        UniformInner::Uniform2f(a, b, _) => UniformCall::Uniform2f(location, a, b),
        UniformInner::Uniform3i(a, b, c, _) => UniformCall::Uniform3i(location, a, b, c),
        UniformInner::Uniform3f(a, b, c, _) => UniformCall::Uniform3f(location, a, b, c),
        UniformInner::Uniform4i(a, b, c, d, _) => UniformCall::Uniform4i(location, a, b, c, d),
        UniformInner::Uniform4f(a, b, c, d, _) => UniformCall::Uniform4f(location, a, b, c, d),
    }
}

/// The mathematical content of a [`WebGlContext`]: the program slot and the
/// two registries.
pub ghost struct WebGlContextModel {
    pub program: Option<u32>,
    pub attributes: Map<Seq<char>, BufferModel>,
    pub uniforms: Map<Seq<char>, BufferModel>,
}

/// The state the WebGL wrapper keeps between browser calls: the linked
/// program, and the buffers and uniforms registered under their shader
/// names.
pub struct WebGlContext {
    program: Program,
    attributes: StringHashMap<Buffer>,
    uniforms: StringHashMap<Buffer>,
}

impl View for WebGlContext {
    type V = WebGlContextModel;

    closed spec fn view(&self) -> WebGlContextModel {
        WebGlContextModel {
            program: self.program@,
            attributes: self.attributes@.map_values(|b: Buffer| b@),
            uniforms: self.uniforms@.map_values(|b: Buffer| b@),
        }
    }
}

impl WebGlContext {
    /// Every attribute entry was registered with a buffer handle and
    /// attribute data; every uniform entry with a uniform value.  The
    /// registration methods keep this, and the lookup methods rely on it.
    pub open spec fn wf(&self) -> bool {
        &&& forall|k: Seq<char>| #[trigger]
            self@.attributes.contains_key(k) ==> self@.attributes[k].data is Attribute
                && self@.attributes[k].buffer is Some
        &&& forall|k: Seq<char>| #[trigger]
            self@.uniforms.contains_key(k) ==> self@.uniforms[k].data is Uniform
    }

    /// The state before any browser call has been answered: no program, and
    /// both registries empty.
    pub fn new() -> (r: Self)
        ensures
            r@.program is None,
            r@.attributes == Map::<Seq<char>, BufferModel>::empty(),
            r@.uniforms == Map::<Seq<char>, BufferModel>::empty(),
            r.wf(),
    {
        let r = WebGlContext {
            program: Program::empty(),
            attributes: StringHashMap::new(),
            uniforms: StringHashMap::new(),
        };
        proof {
            assert(r@.attributes =~= Map::<Seq<char>, BufferModel>::empty());
            assert(r@.uniforms =~= Map::<Seq<char>, BufferModel>::empty());
        }
        r
    }

    /// Installs a linked program in the program slot, replacing whatever was
    /// there.
    pub fn add_program(&mut self, program: Program)
        requires
            old(self).wf(),
        ensures
            final(self).wf(),
            final(self)@.program == program@,
            final(self)@.attributes == old(self)@.attributes,
            final(self)@.uniforms == old(self)@.uniforms,
    {
        self.program = program;
    }

    /// The handle of the installed program, or the error every draw step
    /// before linking gets.
    pub fn use_program(&self) -> (r: Result<u32, RuglError>)
        ensures
            match self@.program {
                Some(h) => r == Ok::<u32, RuglError>(h),
                None => r == Err::<u32, RuglError>(RuglError::ProgramNotSetUp),
            },
    {
        match self.program.as_ref() {
            Some(program) => Ok(*program),
            None => Err(RuglError::ProgramNotSetUp),
        }
    }

    /// Registers attribute data under its shader name.  `buffer` is the
    /// handle of the buffer the embedding program created for it and
    /// `location` the attribute location the browser resolved, negative when
    /// the vertex shader declares no attribute of that name — then nothing
    /// is registered and the name comes back in the error.
    pub fn create_buffer_with_data(
        &mut self,
        name: String,
        data: Vec<Scalar>,
        count: i32,
        buffer: u32,
        location: i32,
    ) -> (r: Result<(), RuglError>)
        requires
            old(self).wf(),
        ensures
            final(self).wf(),
            location < 0 ==> (r matches Err(e) && (e matches RuglError::AttributeLocation(n)
                && n@ == name@)) && *final(self) == *old(self),
            location >= 0 ==> r == Ok::<(), RuglError>(()) && final(self)@.attributes == old(
                self,
            )@.attributes.insert(
                name@,
                BufferModel {
                    buffer: Some(buffer),
                    data: BufferInternalModel::Attribute(data@, location as u32),
                    count,
                },
            ) && final(self)@.uniforms == old(self)@.uniforms && final(self)@.program == old(
                self,
            )@.program,
    {
        if location < 0 {
            return Err(RuglError::AttributeLocation(name));
        }
        let ghost name_view = name@;
        let entry = Buffer::new(
            Some(buffer),
            BufferInternal::Attribute(data, location as u32),
            count,
        );
        let ghost entry_model = entry@;
        self.attributes.insert(name, entry);
        proof {
            assert(final(self)@.attributes =~= old(self)@.attributes.insert(
                name_view,
                entry_model,
            ));
        }
        Ok(())
    }

    /// What a draw step binds for the attribute registered under `name`: the
    /// buffer handle and the scalar data to upload.  Fails exactly when no
    /// attribute of that name was registered.
    pub fn bind_buffer_with_name<'a>(&'a self, name: &str) -> (r: Result<
        (u32, &'a Vec<Scalar>),
        RuglError,
    >)
        requires
            self.wf(),
        ensures
            self@.attributes.contains_key(name@) ==> (r matches Ok((h, d))
                && self@.attributes[name@].buffer == Some(h)
                && (self@.attributes[name@].data matches BufferInternalModel::Attribute(dd, _)
                && dd == d@)),
            !self@.attributes.contains_key(name@) ==> r == Err::<(u32, &'a Vec<Scalar>), RuglError>(
                RuglError::AttributeMissing,
            ),
    {
        match self.attributes.get(name) {
            Some(attribute) => {
                proof {
                    assert(self@.attributes.contains_key(name@));
                    assert(self@.attributes[name@] == attribute@);
                }
                let handle: u32 = match attribute.get_buffer() {
                    Some(h) => *h,
                    None => unreached(),
                };
                let (data, _) = attribute.get_data().get_attribute();
                Ok((handle, data))
            },
            None => Err(RuglError::AttributeMissing),
        }
    }

    /// What a draw step hands to the attribute-pointer call for the
    /// attribute registered under `name`: its resolved location and its
    /// per-vertex component count.  Fails exactly when no attribute of that
    /// name was registered.
    pub fn enable_attribute(&self, name: &str) -> (r: Result<(u32, i32), RuglError>)
        requires
            self.wf(),
        ensures
            self@.attributes.contains_key(name@) ==> (r matches Ok((location, size))
                && (self@.attributes[name@].data matches BufferInternalModel::Attribute(_, l)
                && l == location) && size == self@.attributes[name@].count),
            !self@.attributes.contains_key(name@) ==> r == Err::<(u32, i32), RuglError>(
                RuglError::AttributeMissing,
            ),
    {
        match self.attributes.get(name) {
            Some(attribute) => {
                proof {
                    assert(self@.attributes.contains_key(name@));
                    assert(self@.attributes[name@] == attribute@);
                }
                let (_, location) = attribute.get_data().get_attribute();
                Ok((*location, *attribute.get_count()))
            },
            None => Err(RuglError::AttributeMissing),
        }
    }

    /// Registers a uniform value under its shader name.  `location` is the
    /// handle under which the embedding program keeps the location the
    /// browser resolved, `None` when the shaders declare no uniform of that
    /// name — then nothing is registered.
    pub fn create_uniform(
        &mut self,
        name: String,
        uniform: UniformInner,
        location: Option<u32>,
    ) -> (r: Result<(), RuglError>)
        requires
            old(self).wf(),
        ensures
            final(self).wf(),
            location is None ==> r == Err::<(), RuglError>(RuglError::UniformLocationMissing)
                && *final(self) == *old(self),
            location matches Some(l) ==> r == Ok::<(), RuglError>(()) && final(self)@.uniforms
                == old(self)@.uniforms.insert(
                name@,
                BufferModel {
                    buffer: None,
                    data: BufferInternalModel::Uniform(uniform, l),
                    count: 0,
                },
            ) && final(self)@.attributes == old(self)@.attributes && final(self)@.program == old(
                self,
            )@.program,
    {
        let loc = match location {
            Some(l) => l,
            None => {
                return Err(RuglError::UniformLocationMissing);
            },
        };
        let ghost name_view = name@;
        let entry = Buffer::new(None, BufferInternal::Uniform(uniform, loc), 0);
        let ghost entry_model = entry@;
        self.uniforms.insert(name, entry);
        proof {
            assert(final(self)@.uniforms =~= old(self)@.uniforms.insert(name_view, entry_model));
        }
        Ok(())
    }

    /// The fully-resolved call that binds the uniform registered under
    /// `name`: its location handle with the value's components, by the
    /// value's kind.  Fails exactly when no uniform of that name was
    /// registered.
    pub fn bind_uniform(&self, name: &str) -> (r: Result<UniformCall, RuglError>)
        requires
            self.wf(),
        ensures
            self@.uniforms.contains_key(name@) ==> (self@.uniforms[name@].data matches
                BufferInternalModel::Uniform(u, l) && r == Ok::<UniformCall, RuglError>(
                call_of(u, l),
            )),
            !self@.uniforms.contains_key(name@) ==> r == Err::<UniformCall, RuglError>(
                RuglError::UniformMissing,
            ),
    {
        match self.uniforms.get(name) {
            Some(uniform) => {
                proof {
                    assert(self@.uniforms.contains_key(name@));
                    assert(self@.uniforms[name@] == uniform@);
                }
                let (data, location) = uniform.get_data().get_uniform();
                let loc = *location;
                let r = match data {
                    UniformInner::Uniform1i(a, _) => UniformCall::Uniform1i(loc, *a),
                    UniformInner::Uniform1f(a, _) => UniformCall::Uniform1f(loc, *a),
                    UniformInner::Uniform2i(a, b, _) => UniformCall::Uniform2i(loc, *a, *b),
                    UniformInner::Uniform2f(a, b, _) => UniformCall::Uniform2f(loc, *a, *b),
                    UniformInner::Uniform3i(a, b, c, _) => UniformCall::Uniform3i(loc, *a, *b, *c),
                    UniformInner::Uniform3f(a, b, c, _) => UniformCall::Uniform3f(loc, *a, *b, *c),
                    UniformInner::Uniform4i(a, b, c, d, _) => UniformCall::Uniform4i(
                        loc,
                        *a,
                        *b,
                        *c,
                        *d,
                    ),
                    UniformInner::Uniform4f(a, b, c, d, _) => UniformCall::Uniform4f(
                        loc,
                        *a,
                        *b,
                        *c,
                        *d,
                    ),
                };
                Ok(r)
            },
            None => Err(RuglError::UniformMissing),
        }
    }
}

} // verus!
