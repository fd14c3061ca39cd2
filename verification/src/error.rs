//! The errors the drawing pipeline reports: a lookup that found nothing, a
//! program used before it was linked, or a shader stage the browser refused,
//! with the browser's log when it gave one.

use vstd::prelude::*;

verus! {

/// Everything that can go wrong while a drawing is set up or stepped.
#[derive(Debug, PartialEq, Eq)]
pub enum RuglError {
    /// The browser could not allocate a shader object.
    ShaderCreate,
    /// A shader failed to compile; carries the compile log.
    Compile(String),
    /// The browser could not allocate a program object.
    ProgramCreate,
    /// The program failed to link; carries the link log.
    Link(String),
    /// A draw step ran before any program was linked.
    ProgramNotSetUp,
    /// The browser could not allocate a buffer object.
    BufferCreate,
    /// The vertex shader declares no attribute under this name; carries the
    /// name that was looked up.
    AttributeLocation(String),
    /// No buffer was registered under the attribute name that a draw step
    /// asked for.
    AttributeMissing,
    /// The shaders declare no uniform under the name that was registered.
    UniformLocationMissing,
    /// No value was registered under the uniform name that a draw step asked
    /// for.
    UniformMissing,
}

impl RuglError {
    /// A description of the error.  For an error that carries a looked-up
    /// name or a browser log, the text is that payload or its fixed frame;
    /// the embedding program interpolates the name when it reports one.
    pub fn message(&self) -> (r: &str)
        ensures
            match self {
                RuglError::ShaderCreate => r@ == "Unable to create shader object"@,
                RuglError::Compile(log) => r@ == log@,
                RuglError::ProgramCreate => r@ == "Unable to create shader object"@,
                RuglError::Link(log) => r@ == log@,
                RuglError::ProgramNotSetUp => r@ == "Program has not been setup yet!"@,
                RuglError::BufferCreate => r@ == "Unable to create buffer"@,
                RuglError::AttributeLocation(_) => r@ == "Attribute does not exist!"@,
                RuglError::AttributeMissing => r@ == "Attribute does not exist!"@,
                RuglError::UniformLocationMissing => r@ == "Uniform location not found!"@,
                RuglError::UniformMissing => r@ == "Uniform does not exist!"@,
            },
    {
        match self {
            RuglError::ShaderCreate => "Unable to create shader object",
            RuglError::Compile(log) => log.as_str(),
            RuglError::ProgramCreate => "Unable to create shader object",
            RuglError::Link(log) => log.as_str(),
            RuglError::ProgramNotSetUp => "Program has not been setup yet!",
            RuglError::BufferCreate => "Unable to create buffer",
            RuglError::AttributeLocation(_) => "Attribute does not exist!",
            RuglError::AttributeMissing => "Attribute does not exist!",
            RuglError::UniformLocationMissing => "Uniform location not found!",
            RuglError::UniformMissing => "Uniform does not exist!",
        }
    }
}

} // verus!
