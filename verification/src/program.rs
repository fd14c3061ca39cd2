//! A linked program: empty until shaders are linked, then the handle the
//! embedding program keeps the browser's program object under.
//!
//! Linking is the browser's work.  The embedding program hands back the
//! handle and the link status, and [`Program::new`] decides, exactly as the
//! pipeline does, whether that made a program or a link error.

use vstd::prelude::*;

use crate::error::RuglError;

verus! {

/// A program slot: no program yet, or the handle of a linked one.
#[derive(Debug, Clone, Copy, PartialEq, Eq, Structural)]
pub struct Program {
    internal: Option<u32>,
}

impl View for Program {
    type V = Option<u32>;

    closed spec fn view(&self) -> Option<u32> {
        self.internal
    }
}

impl Program {
    /// The slot before anything is linked.
    pub fn empty() -> (r: Self)
        ensures
            r@ is None,
    {
        Program { internal: None }
    }

    /// Decides what linking made of a program.  `handle` is where the
    /// embedding program keeps the browser's program object, `linked` the
    /// browser's link status, and `log` its link log, if it gave one.  Only
    /// a status of `true` yields a program; anything else is a link error
    /// carrying the log, or a fixed text where there was none.
    pub fn new(handle: u32, linked: Option<bool>, log: Option<String>) -> (r: Result<
        Program,
        RuglError,
    >)
        ensures
            linked == Some(true) ==> (r matches Ok(p) && p@ == Some(handle)),
            linked != Some(true) ==> (r matches Err(e) && e matches RuglError::Link(m) && m@
                == (match log {
                Some(l) => l@,
                None => "Unknown error creating program object"@,
            })),
    {
        let ok = match linked {
            Some(status) => status,
            None => false,
        };
        if ok {
            Ok(Program { internal: Some(handle) })
        } else {
            let message = match log {
                Some(l) => l,
                None => "Unknown error creating program object".to_owned(),
            };
            Err(RuglError::Link(message))
        }
    }

    /// The handle of the linked program, if one has been linked.
    pub fn as_ref(&self) -> (r: Option<&u32>)
        ensures
            match r {
                Some(h) => self@ == Some(*h),
                None => self@ is None,
            },
    {
        self.internal.as_ref()
    }
}

} // verus!
