//! A shader stage: its source and which stage it feeds, and the handle a
//! compiled shader stands behind.
//!
//! Compiling is the browser's work.  The embedding program hands the result
//! back — a handle and the compile status — and [`Shader::new`] decides,
//! exactly as the pipeline does, whether that made a shader or an error.

use vstd::prelude::*;

use crate::error::RuglError;

verus! {

/// The stage a shader compiles for, in the numbering of the WebGL API.
pub const GL_VERTEX_SHADER: u32 = 35633;

/// The stage a shader compiles for, in the numbering of the WebGL API.
pub const GL_FRAGMENT_SHADER: u32 = 35632;

/// A shader stage and its source text.
#[derive(Debug, PartialEq, Eq)]
pub enum ShaderType {
    Vertex(String),
    Fragment(String),
}

impl ShaderType {
    /// The source text, whichever stage it is for.
    pub open spec fn source_spec(self) -> Seq<char> {
        match self {
            ShaderType::Vertex(source) => source@,
            ShaderType::Fragment(source) => source@,
        }
    }

    /// Takes the source text out, whichever stage it is for.
    pub fn into_inner(self) -> (r: String)
        ensures
            r@ == self.source_spec(),
    {
        match self {
            ShaderType::Vertex(source) => source,
            ShaderType::Fragment(source) => source,
        }
    }

    /// The WebGL stage constant this shader compiles for.
    pub fn into_gl_type(&self) -> (r: u32)
        ensures
            self is Vertex ==> r == GL_VERTEX_SHADER,
            self is Fragment ==> r == GL_FRAGMENT_SHADER,
    {
        match self {
            ShaderType::Vertex(_) => GL_VERTEX_SHADER,
            ShaderType::Fragment(_) => GL_FRAGMENT_SHADER,
        }
    }
}

/// A compiled shader, held as the handle under which the embedding program
/// keeps the browser's shader object.
#[derive(Debug, Clone, Copy, PartialEq, Eq, Structural)]
pub struct Shader {
    internal: u32,
}

impl View for Shader {
    type V = u32;

    closed spec fn view(&self) -> u32 {
        self.internal
    }
}

impl Shader {
    /// Decides what compiling made of a shader.  `handle` is where the
    /// embedding program keeps the browser's shader object, `compiled` the
    /// browser's compile status, and `log` its compile log, if it gave one.
    /// Only a status of `true` yields a shader; anything else is a compile
    /// error carrying the log, or a fixed text where there was none.
    pub fn new(handle: u32, compiled: Option<bool>, log: Option<String>) -> (r: Result<
        Shader,
        RuglError,
    >)
        ensures
            compiled == Some(true) ==> (r matches Ok(s) && s@ == handle),
            compiled != Some(true) ==> (r matches Err(e) && e matches RuglError::Compile(m) && m@
                == (match log {
                Some(l) => l@,
                None => "Unknown error creating shader"@,
            })),
    {
        let ok = match compiled {
            Some(status) => status,
            None => false,
        };
        if ok {
            Ok(Shader { internal: handle })
        } else {
            let message = match log {
                Some(l) => l,
                None => "Unknown error creating shader".to_owned(),
            };
            Err(RuglError::Compile(message))
        }
    }

    /// The handle the compiled shader stands behind.
    pub fn as_ref(&self) -> (r: &u32)
        ensures
            *r == self@,
    {
        &self.internal
    }
}

} // verus!
