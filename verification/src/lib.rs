//! A declarative layer for WebGL drawing applications.
//!
//! A drawing is described by its vertex and fragment shader sources, named
//! vertex attributes, named uniforms and a primitive count.  This crate holds
//! the data model of such a description and the bookkeeping that a WebGL
//! context wrapper performs around the browser's API: registering buffers and
//! uniforms under their names, resolving what each draw step has to bind, and
//! reporting exactly which lookups fail.  The calls into the browser itself
//! are left to the embedding program; every decision between them is verified
//! here.

pub mod attribute;
pub mod buffer;
pub mod context;
pub mod error;
pub mod program;
pub mod qualifier;
pub mod rugl;
pub mod shader;
pub mod uniform;
