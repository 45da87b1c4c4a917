//! The vocabulary shared with the renderer: object names, the one-way
//! commands, and the error kinds that a context can raise.

use vstd::prelude::*;

verus! {

/// Name that the renderer gives to a vertex array object when it allocates it.
#[derive(Clone, Copy, Debug, PartialEq, Eq, Structural)]
pub struct VertexArrayId(pub u32);

/// Name of a buffer object.
#[derive(Clone, Copy, Debug, PartialEq, Eq, Structural)]
pub struct BufferId(pub u32);

/// A command for the renderer that expects no answer. Commands reach the
/// renderer in the order in which they were issued.
#[derive(Clone, Copy, Debug, PartialEq, Eq, Structural)]
pub enum WebGLCommand {
    /// Make the named vertex array current, or the default one for `None`.
    BindVertexArray(Option<VertexArrayId>),
    /// Release the named vertex array.
    DeleteVertexArray(VertexArrayId),
}

/// The renderer could not allocate a name.
#[derive(Clone, Copy, Debug, PartialEq, Eq, Structural)]
pub struct AllocationFailure;

/// Error kinds of a rendering context.
#[derive(Clone, Copy, Debug, PartialEq, Eq, Structural)]
pub enum WebGLError {
    InvalidEnum,
    InvalidFramebufferOperation,
    InvalidOperation,
    InvalidValue,
    OutOfMemory,
    ContextLost,
}

/// Versions of the API.
#[derive(Clone, Copy, Debug, PartialEq, Eq, Structural)]
pub enum WebGLVersion {
    WebGL1,
    WebGL2,
}

} // verus!
