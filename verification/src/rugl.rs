//! The drawing description and its per-frame step.
//!
//! [`RuglInner`] holds what a declarative drawing block describes: shader
//! sources, attributes, uniforms, clear color, primitive count and the time
//! tick.  [`Rugl`] pairs it with the context state and resolves each frame
//! into a [`FramePlan`]: everything the embedding program must hand to the
//! browser, in order — or the first lookup error a frame loop would hit.
//!
//! Color components are single-precision bit patterns, the tick a
//! double-precision bit pattern; the library orders and routes them without
//! computing on them.

use vstd::prelude::*;

use crate::attribute::Attribute;
use crate::buffer::{BufferInternalModel, BufferModel};
use crate::context::{call_of, UniformCall, WebGlContext};
use crate::error::RuglError;
use crate::uniform::Uniform;

verus! {

/// The description of a drawing, as a declarative block gives it.
pub struct RuglInner {
    /// Clear color, as single-precision bit patterns.
    pub clear: [u32; 4],
    /// Vertex shader source.
    pub vertex: String,
    /// Fragment shader source.
    pub fragment: String,
    /// The attributes of the drawing.
    pub attributes: Vec<Attribute>,
    /// The uniforms of the drawing.
    pub uniforms: Vec<Uniform>,
    /// Number of primitives to draw.
    pub count: i32,
    /// Whether some uniform is recomputed each frame, so the screen must be
    /// redrawn continuously.
    pub dynamic: bool,
    /// The time tick handed to uniform updaters, as a double-precision bit
    /// pattern.
    pub tick: u64,
}

impl RuglInner {
    /// The vertex shader source.
    pub fn get_vertex_shader(&self) -> (r: &str)
        ensures
            r@ == self.vertex@,
    {
        self.vertex.as_str()
    }

    /// The fragment shader source.
    pub fn get_fragment_shader(&self) -> (r: &str)
        ensures
            r@ == self.fragment@,
    {
        self.fragment.as_str()
    }

    /// The attributes of the drawing.
    pub fn get_attributes(&self) -> (r: &Vec<Attribute>)
        ensures
            r@ == self.attributes@,
    {
        &self.attributes
    }

    /// The attributes of the drawing, for filling in.
    pub fn get_mut_attributes(&mut self) -> (r: &mut Vec<Attribute>)
        ensures
            *r == old(self).attributes,
            final(self).attributes == *final(r),
            final(self).clear == old(self).clear,
            final(self).vertex == old(self).vertex,
            final(self).fragment == old(self).fragment,
            final(self).uniforms == old(self).uniforms,
            final(self).count == old(self).count,
            final(self).dynamic == old(self).dynamic,
            final(self).tick == old(self).tick,
    {
        &mut self.attributes
    }

    /// The uniforms of the drawing.
    pub fn get_uniforms(&self) -> (r: &Vec<Uniform>)
        ensures
            r@ == self.uniforms@,
    {
        &self.uniforms
    }

    /// The uniforms of the drawing, for filling in.
    pub fn get_mut_uniforms(&mut self) -> (r: &mut Vec<Uniform>)
        ensures
            *r == old(self).uniforms,
            final(self).uniforms == *final(r),
            final(self).clear == old(self).clear,
            final(self).vertex == old(self).vertex,
            final(self).fragment == old(self).fragment,
            final(self).attributes == old(self).attributes,
            final(self).count == old(self).count,
            final(self).dynamic == old(self).dynamic,
            final(self).tick == old(self).tick,
    {
        &mut self.uniforms
    }

    /// The number of primitives to draw.
    pub fn get_count(&self) -> (r: &i32)
        ensures
            *r == self.count,
    {
        &self.count
    }

    /// Whether the screen must be redrawn continuously.
    pub fn is_dynamic(&self) -> (r: bool)
        ensures
            r == self.dynamic,
    {
        self.dynamic
    }

    /// Whether some uniform of the drawing carries a per-frame updater.
    /// This is what the setup pipeline stores in `dynamic`.
    pub fn any_dynamic_uniform(&self) -> (r: bool)
        ensures
            r == exists|i: int|
                0 <= i < self.uniforms@.len() && self.uniforms@[i]@.data.is_dynamic_spec(),
    {
        let n = self.uniforms.len();
        let mut i: usize = 0;
        while i < n
            invariant
                i <= n,
                n == self.uniforms@.len(),
                forall|j: int| 0 <= j < i ==> !self.uniforms@[j]@.data.is_dynamic_spec(),
            decreases n - i,
        {
            if self.uniforms[i].get_data().is_dynamic() {
                return true;
            }
            i = i + 1;
        }
        false
    }
}

impl Default for RuglInner {
    /// The empty drawing: everything zero or empty, nothing dynamic.
    fn default() -> (r: Self)
        ensures
            r.clear == [0u32, 0u32, 0u32, 0u32],
            r.vertex@ == Seq::<char>::empty(),
            r.fragment@ == Seq::<char>::empty(),
            r.attributes@ == Seq::<Attribute>::empty(),
            r.uniforms@ == Seq::<Uniform>::empty(),
            r.count == 0,
            !r.dynamic,
            r.tick == 0,
    {
        RuglInner {
            clear: [0, 0, 0, 0],
            vertex: String::new(),
            fragment: String::new(),
            attributes: Vec::new(),
            uniforms: Vec::new(),
            count: 0,
            dynamic: false,
            tick: 0,
        }
    }
}

/// What one frame hands to the browser, in order: the clear color, one
/// attribute-pointer call per attribute, one uniform call per uniform, and
/// the primitive count to draw; with the tick the updaters run on.
#[derive(Debug, PartialEq)]
pub struct FramePlan {
    /// Clear color, as single-precision bit patterns.
    pub clear: [u32; 4],
    /// Per attribute: its resolved location and per-vertex component count.
    pub enables: Vec<(u32, i32)>,
    /// Per uniform: the fully-resolved binding call.
    pub uniform_calls: Vec<UniformCall>,
    /// Number of primitives to draw.
    pub draw_count: i32,
    /// The tick this frame's updaters run on, as a double-precision bit
    /// pattern.
    pub tick: u64,
}

/// The attribute-pointer arguments that enabling this registry entry hands
/// to the browser: its resolved location and its component count.
pub open spec fn enable_of(b: BufferModel) -> (u32, i32) {
    match b.data {
        BufferInternalModel::Attribute(_, location) => (location, b.count),
        BufferInternalModel::Uniform(_, _) => arbitrary(),
    }
}

/// The binding call for this registry entry's uniform value.
pub open spec fn uniform_call_of(b: BufferModel) -> UniformCall {
    match b.data {
        BufferInternalModel::Uniform(u, l) => call_of(u, l),
        BufferInternalModel::Attribute(_, _) => arbitrary(),
    }
}

/// A drawing bound to its context state.
pub struct Rugl {
    pub inner: RuglInner,
    pub context: WebGlContext,
}

impl Rugl {
    /// Whether the screen must be redrawn continuously.
    pub fn is_dynamic(&self) -> (r: bool)
        ensures
            r == self.inner.dynamic,
    {
        self.inner.is_dynamic()
    }

    /// Resolves one frame: looks every attribute and every uniform of the
    /// drawing up in the context and returns the calls the frame makes, in
    /// the drawing's order.  Fails with the first attribute whose buffer was
    /// never registered, then with the first such uniform: attributes are
    /// resolved before uniforms, each in order.
    pub fn step(&self) -> (r: Result<FramePlan, RuglError>)
        requires
            self.context.wf(),
        ensures
            (forall|i: int|
                0 <= i < self.inner.attributes@.len()
                    ==> #[trigger] self.context@.attributes.contains_key(
                    self.inner.attributes@[i]@.name,
                )) && (forall|i: int|
                0 <= i < self.inner.uniforms@.len()
                    ==> #[trigger] self.context@.uniforms.contains_key(
                    self.inner.uniforms@[i]@.name,
                )) ==> (r matches Ok(plan) && plan.clear == self.inner.clear && plan.draw_count
                == self.inner.count && plan.tick == self.inner.tick && plan.enables@.len()
                == self.inner.attributes@.len() && (forall|i: int|
                0 <= i < self.inner.attributes@.len() ==> plan.enables@[i] == enable_of(
                    self.context@.attributes[#[trigger] self.inner.attributes@[i]@.name],
                )) && plan.uniform_calls@.len() == self.inner.uniforms@.len() && (forall|i: int|
                0 <= i < self.inner.uniforms@.len() ==> plan.uniform_calls@[i] == uniform_call_of(
                    self.context@.uniforms[#[trigger] self.inner.uniforms@[i]@.name],
                ))),
            (exists|i: int|
                0 <= i < self.inner.attributes@.len()
                    && !(#[trigger] self.context@.attributes.contains_key(
                    self.inner.attributes@[i]@.name,
                ))) ==> r == Err::<FramePlan, RuglError>(RuglError::AttributeMissing),
            (forall|i: int|
                0 <= i < self.inner.attributes@.len()
                    ==> #[trigger] self.context@.attributes.contains_key(
                    self.inner.attributes@[i]@.name,
                )) && (exists|i: int|
                0 <= i < self.inner.uniforms@.len()
                    && !(#[trigger] self.context@.uniforms.contains_key(
                    self.inner.uniforms@[i]@.name,
                ))) ==> r == Err::<FramePlan, RuglError>(RuglError::UniformMissing),
    {
        let mut enables: Vec<(u32, i32)> = Vec::new();
        let n_attrs = self.inner.attributes.len();
        let mut i: usize = 0;
        while i < n_attrs
            invariant
                i <= n_attrs,
                n_attrs == self.inner.attributes@.len(),
                self.context.wf(),
                enables@.len() == i,
                forall|j: int|
                    0 <= j < i ==> #[trigger] self.context@.attributes.contains_key(
                        self.inner.attributes@[j]@.name,
                    ),
                forall|j: int|
                    0 <= j < i ==> enables@[j] == enable_of(
                        self.context@.attributes[#[trigger] self.inner.attributes@[j]@.name],
                    ),
            decreases n_attrs - i,
        {
            let name = self.inner.attributes[i].get_name();
            match self.context.enable_attribute(name.as_str()) {
                Ok(call) => {
                    enables.push(call);
                },
                Err(e) => {
                    return Err(e);
                },
            }
            i = i + 1;
        }
        let mut uniform_calls: Vec<UniformCall> = Vec::new();
        let n_unis = self.inner.uniforms.len();
        let mut k: usize = 0;
        while k < n_unis
            invariant
                k <= n_unis,
                n_unis == self.inner.uniforms@.len(),
                self.context.wf(),
                forall|j: int|
                    0 <= j < self.inner.attributes@.len()
                        ==> #[trigger] self.context@.attributes.contains_key(
                        self.inner.attributes@[j]@.name,
                    ),
                uniform_calls@.len() == k,
                forall|j: int|
                    0 <= j < k ==> #[trigger] self.context@.uniforms.contains_key(
                        self.inner.uniforms@[j]@.name,
                    ),
                forall|j: int|
                    0 <= j < k ==> uniform_calls@[j] == uniform_call_of(
                        self.context@.uniforms[#[trigger] self.inner.uniforms@[j]@.name],
                    ),
            decreases n_unis - k,
        {
            let name = self.inner.uniforms[k].get_name();
            match self.context.bind_uniform(name.as_str()) {
                Ok(call) => {
                    uniform_calls.push(call);
                },
                Err(e) => {
                    return Err(e);
                },
            }
            k = k + 1;
        }
        Ok(
            FramePlan {
                clear: self.inner.clear,
                enables,
                uniform_calls,
                draw_count: self.inner.count,
                tick: self.inner.tick,
            },
        )
    }
}

} // verus!
