//! The extension registry of a rendering context: what the driver offers,
//! which extension is enabled, and the hooks that answer queries for
//! context parameters.

use crate::context::RenderingContext;
use crate::extension::OESVertexArrayObject;
use crate::protocol::{WebGLError, WebGLVersion};
use crate::vertex_array::VertexArrayHandle;
use std::collections::HashMap;
use vstd::prelude::*;

verus! {

/// The API versions on which an extension is offered.
#[derive(Clone, Copy, Debug, PartialEq, Eq, Structural)]
pub enum WebGLExtensionSpec {
    /// Every version.
    All,
    /// One version only.
    Specific(WebGLVersion),
}

/// A hook that answers a query for a context parameter.
#[derive(Clone, Copy, Debug, PartialEq, Eq, Structural)]
pub enum QueryParameterHandler {
    /// Answers with the vertex array object that is bound.
    VertexArrayBinding,
}

/// The extension registry of a rendering context.
#[derive(Debug)]
pub struct WebGLExtensions {
    gl_extensions: Vec<String>,
    query_parameter_handlers: HashMap<u32, QueryParameterHandler>,
    vertex_array_object: Option<OESVertexArrayObject>,
}

/// `offered` holds one of `names`.
pub open spec fn offers_any(offered: Seq<Seq<char>>, names: Seq<Seq<char>>) -> bool {
    exists|i: int, j: int|
        0 <= i < offered.len() && 0 <= j < names.len() && #[trigger] offered[i] == #[trigger] names[j]
}

impl WebGLExtensions {
    /// The names of the extensions that the driver offers.
    pub closed spec fn gl_extensions(&self) -> Seq<Seq<char>> {
        Seq::new(self.gl_extensions@.len(), |i: int| self.gl_extensions@[i]@)
    }

    /// The hooks registered, by the parameter that each answers for.
    pub closed spec fn query_parameter_handlers(&self) -> Map<u32, QueryParameterHandler> {
        self.query_parameter_handlers@
    }

    /// Whether the vertex array extension has been set up.
    pub closed spec fn has_vertex_array_object(&self) -> bool {
        self.vertex_array_object is Some
    }

    /// A registry for a driver that offers `gl_extensions`: no hook is
    /// registered and no extension is set up.
    pub fn new(gl_extensions: Vec<String>) -> (registry: Self)
        ensures
            registry.gl_extensions() == Seq::new(
                gl_extensions@.len(),
                |i: int| gl_extensions@[i]@,
            ),
            registry.query_parameter_handlers() == Map::<u32, QueryParameterHandler>::empty(),
            !registry.has_vertex_array_object(),
    {
        WebGLExtensions {
            gl_extensions,
            query_parameter_handlers: HashMap::new(),
            vertex_array_object: None,
        }
    }

    /// Whether the driver offers an extension with one of `names`.
    pub fn supports_any_gl_extension(&self, names: &[&str]) -> (supported: bool)
        ensures
            supported == offers_any(
                self.gl_extensions(),
                Seq::new(names@.len(), |j: int| names@[j]@),
            ),
    {
        let ghost wanted = Seq::new(names@.len(), |j: int| names@[j]@);
        let mut j: usize = 0;
        while j < names.len()
            invariant
                j <= names@.len(),
                wanted == Seq::new(names@.len(), |j: int| names@[j]@),
                forall|i: int, n: int|
                    0 <= i < self.gl_extensions().len() && 0 <= n < j ==> #[trigger] self.gl_extensions()[i]
                        != #[trigger] wanted[n],
            decreases names@.len() - j,
        {
            let name = String::from_str(names[j]);
            let mut i: usize = 0;
            while i < self.gl_extensions.len()
                invariant
                    i <= self.gl_extensions@.len(),
                    j < names@.len(),
                    name@ == wanted[j as int],
                    wanted == Seq::new(names@.len(), |j: int| names@[j]@),
                    forall|k: int| 0 <= k < i ==> #[trigger] self.gl_extensions()[k] != name@,
                decreases self.gl_extensions@.len() - i,
            {
                if self.gl_extensions[i] == name {
                    assert(self.gl_extensions()[i as int] == wanted[j as int]);
                    return true;
                }
                i += 1;
            }
            j += 1;
        }
        false
    }

    /// Registers `handler` as the hook for the parameter `name`, in place of
    /// the hook that the parameter had.
    pub fn add_query_parameter_handler(&mut self, name: u32, handler: QueryParameterHandler)
        ensures
            final(self).gl_extensions() == old(self).gl_extensions(),
            final(self).has_vertex_array_object() == old(self).has_vertex_array_object(),
            final(self).query_parameter_handlers() == old(self).query_parameter_handlers().insert(
                name,
                handler,
            ),
    {
        self.query_parameter_handlers.insert(name, handler);
    }

    /// The hook for the parameter `name`, if one is registered.
    pub fn get_query_parameter_handler(&self, name: u32) -> (handler: Option<
        QueryParameterHandler,
    >)
        ensures
            handler == (if self.query_parameter_handlers().contains_key(name) {
                Some(self.query_parameter_handlers()[name])
            } else {
                None
            }),
    {
        match self.query_parameter_handlers.get(&name) {
            Some(handler) => Some(*handler),
            None => None,
        }
    }

    /// Sets up the vertex array extension, unless it is set up already.
    pub fn init_vertex_array_object(&mut self)
        ensures
            final(self).has_vertex_array_object(),
            final(self).gl_extensions() == old(self).gl_extensions(),
            final(self).query_parameter_handlers() == old(self).query_parameter_handlers(),
    {
        if self.vertex_array_object.is_none() {
            self.vertex_array_object = Some(OESVertexArrayObject::new());
        }
    }

    /// The vertex array extension, if it has been set up.
    pub fn vertex_array_object(&self) -> (extension: Option<&OESVertexArrayObject>)
        ensures
            extension is Some == self.has_vertex_array_object(),
    {
        self.vertex_array_object.as_ref()
    }
}

impl QueryParameterHandler {
    /// What the hook answers on the context `ctx` with the registry
    /// `registry`.
    ///
    /// The hook for the bound vertex array object answers with the handle of
    /// that object, or with `None` where no object is bound. Where the
    /// vertex array extension has not been set up it fails with
    /// `InvalidOperation`.
    pub open spec fn answer(self, registry: &WebGLExtensions, ctx: &RenderingContext) -> Result<
        Option<VertexArrayHandle>,
        WebGLError,
    > {
        match self {
            QueryParameterHandler::VertexArrayBinding => if registry.has_vertex_array_object() {
                Ok(ctx@.bound_vertex_array)
            } else {
                Err(WebGLError::InvalidOperation)
            },
        }
    }

    /// Runs the hook on the context `ctx` with the registry `registry`.
    pub fn call(self, registry: &WebGLExtensions, ctx: &RenderingContext) -> (answer: Result<
        Option<VertexArrayHandle>,
        WebGLError,
    >)
        ensures
            answer == self.answer(registry, ctx),
    {
        match self {
            QueryParameterHandler::VertexArrayBinding => match registry.vertex_array_object() {
                Some(extension) => Ok(extension.get_current_binding(ctx)),
                None => Err(WebGLError::InvalidOperation),
            },
        }
    }
}

} // verus!
