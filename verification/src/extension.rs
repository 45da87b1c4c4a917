//! The extension itself: creating, binding, deleting and querying vertex
//! array objects on a rendering context.

use crate::attrib_buffers::{references, BufferHandle};
use crate::context::RenderingContext;
use crate::model;
use crate::model::ContextView;
use crate::protocol::{AllocationFailure, VertexArrayId, WebGLCommand, WebGLError, WebGLVersion};
use crate::registry::{offers_any, QueryParameterHandler, WebGLExtensionSpec, WebGLExtensions};
use crate::vertex_array::{VertexArrayHandle, VertexArrayObject};
use vstd::prelude::*;

verus! {

/// The parameter under which a context is asked for its bound vertex array
/// object.
pub const VERTEX_ARRAY_BINDING_OES: u32 = 0x85B5;

/// The names under which a driver offers vertex array objects.
pub open spec fn driver_extension_names() -> Seq<Seq<char>> {
    seq![
        "GL_OES_vertex_array_object"@,
        "GL_ARB_vertex_array_object"@,
        "GL_APPLE_vertex_array_object"@,
    ]
}

/// The `OES_vertex_array_object` extension of a rendering context.
///
/// The extension keeps no state of its own: the vertex array objects, the
/// slot that says which one is bound and the current bindings all belong to
/// the context, which every operation takes as an argument.
#[derive(Debug)]
pub struct OESVertexArrayObject {}

#[allow(non_snake_case)]
impl OESVertexArrayObject {
    /// The bare extension, before it is handed out.
    fn new_inherited() -> (extension: OESVertexArrayObject) {
        OESVertexArrayObject {  }
    }

    /// The extension.
    pub fn new() -> (extension: OESVertexArrayObject) {
        OESVertexArrayObject::new_inherited()
    }

    /// The vertex array object that is bound in `ctx`, if one is.
    pub fn get_current_binding(&self, ctx: &RenderingContext) -> (bound: Option<
        VertexArrayHandle,
    >)
        ensures
            bound == ctx@.bound_vertex_array,
    {
        ctx.bound_vertex_array()
    }

    /// Creates a vertex array object from the renderer's answer to a request
    /// for a new name. On `Ok` the context gets a new object with that name,
    /// no flag set and nothing stored, and its handle is returned. On `Err`
    /// nothing changes and `None` is returned.
    pub fn CreateVertexArrayOES(
        &self,
        ctx: &mut RenderingContext,
        reply: Result<VertexArrayId, AllocationFailure>,
    ) -> (vao: Option<VertexArrayHandle>)
        requires
            old(ctx).wf(),
        ensures
            final(ctx).wf(),
            final(ctx)@ == old(ctx)@.create_vertex_array(reply),
            reply is Ok ==> (vao matches Some(created) && created.0
                == old(ctx)@.vertex_arrays.len()),
            reply is Err ==> vao is None,
    {
        match reply {
            Ok(id) => {
                let created = ctx.add_vertex_array(VertexArrayObject::new(id));
                Some(created)
            },
            Err(_) => None,
        }
    }

    /// Deletes `vao`. Nothing happens where `vao` is absent or was deleted
    /// before. Otherwise the object is unbound first if it is the bound one,
    /// with a command to bind no object; every buffer that it stores forgets
    /// its name; a command to delete it is issued; and it is marked as
    /// deleted.
    pub fn DeleteVertexArrayOES(&self, ctx: &mut RenderingContext, vao: Option<VertexArrayHandle>)
        requires
            old(ctx).wf(),
            old(ctx)@.admits(vao),
        ensures
            final(ctx).wf(),
            final(ctx)@ == old(ctx)@.delete_vertex_array(vao),
    {
        if let Some(target) = vao {
            if ctx.vertex_array(target).is_deleted() {
                return ;
            }
            let id = ctx.vertex_array(target).id();
            if let Some(bound) = ctx.bound_vertex_array() {
                if ctx.vertex_array(bound).id() == id {
                    ctx.set_bound_vertex_array(None);
                    ctx.send_command(WebGLCommand::BindVertexArray(None));
                }
            }
            let held = ctx.vertex_array(target).held_buffers();
            proof {
                lemma_held_buffers_exist(old(ctx)@, target, held@);
            }
            remove_vao_references(ctx, &held, id);
            ctx.send_command(WebGLCommand::DeleteVertexArray(id));
            ctx.vertex_array_mut(target).set_deleted();
        }
    }

    /// Binds `vao`, or no vertex array object for `None`.
    ///
    /// Where an object is bound, the current attribute-buffer bindings and
    /// the current index buffer are first copied into it, and every buffer
    /// among them learns its name. Then, for a deleted `vao`,
    /// `InvalidOperation` is raised and nothing more happens: no command is
    /// issued and the bound object stays bound. For another `vao` a command
    /// to bind it is issued, it is marked as bound once, it becomes the bound
    /// object, and what it stores becomes current. For `None` a command to
    /// bind no object is issued, no object is bound any more, and no
    /// attribute slot is bound any more.
    pub fn BindVertexArrayOES(&self, ctx: &mut RenderingContext, vao: Option<VertexArrayHandle>)
        requires
            old(ctx).wf(),
            old(ctx)@.admits(vao),
        ensures
            final(ctx).wf(),
            final(ctx)@ == old(ctx)@.bind_vertex_array(vao),
    {
        if let Some(bound) = ctx.bound_vertex_array() {
            let current = ctx.bound_attrib_buffers().duplicate();
            let element_array = ctx.bound_buffer_element_array();
            let object = ctx.vertex_array_mut(bound);
            object.bound_attrib_buffers_mut().set_from(&current);
            object.set_bound_buffer_element_array(element_array);
            let id = ctx.vertex_array(bound).id();
            let held = ctx.vertex_array(bound).held_buffers();
            proof {
                lemma_held_buffers_exist(ctx@, bound, held@);
            }
            add_vao_references(ctx, &held, id);
        }
        assert(ctx@ == old(ctx)@.save_bound_vertex_array());
        if let Some(target) = vao {
            if ctx.vertex_array(target).is_deleted() {
                ctx.webgl_error(WebGLError::InvalidOperation);
                return ;
            }
            let id = ctx.vertex_array(target).id();
            ctx.send_command(WebGLCommand::BindVertexArray(Some(id)));
            ctx.vertex_array_mut(target).set_ever_bound();
            ctx.set_bound_vertex_array(Some(target));
            let stored = ctx.vertex_array(target).bound_attrib_buffers().duplicate();
            let element_array = ctx.vertex_array(target).bound_buffer_element_array();
            ctx.set_bound_attrib_buffers(&stored);
            ctx.set_bound_buffer_element_array(element_array);
        } else {
            ctx.send_command(WebGLCommand::BindVertexArray(None));
            ctx.set_bound_vertex_array(None);
            ctx.clear_bound_attrib_buffers();
        }
    }

    /// Whether `vao` is a vertex array object: it names an object of `ctx`
    /// that is not deleted and was bound at least once.
    pub fn IsVertexArrayOES(&self, ctx: &RenderingContext, vao: Option<VertexArrayHandle>) -> (yes:
        bool)
        ensures
            yes == ctx@.is_vertex_array(vao),
    {
        match vao {
            Some(target) => {
                if ctx.has_vertex_array(target) {
                    let object = ctx.vertex_array(target);
                    !object.is_deleted() && object.ever_bound()
                } else {
                    false
                }
            },
            None => false,
        }
    }

    /// The API versions on which the extension is offered: the first only.
    pub fn spec() -> (versions: WebGLExtensionSpec)
        ensures
            versions == WebGLExtensionSpec::Specific(WebGLVersion::WebGL1),
    {
        WebGLExtensionSpec::Specific(WebGLVersion::WebGL1)
    }

    /// Whether the driver behind `registry` can carry the extension: it
    /// offers vertex array objects under one of three names.
    pub fn is_supported(registry: &WebGLExtensions) -> (supported: bool)
        ensures
            supported == offers_any(registry.gl_extensions(), driver_extension_names()),
    {
        let names: [&str; 3] = [
            "GL_OES_vertex_array_object",
            "GL_ARB_vertex_array_object",
            "GL_APPLE_vertex_array_object",
        ];
        assert(Seq::new(names@.len(), |j: int| names@[j]@) =~= driver_extension_names());
        registry.supports_any_gl_extension(&names)
    }

    /// Enables the extension: registers with `registry` the hook that
    /// answers the query for the bound vertex array object.
    pub fn enable(registry: &mut WebGLExtensions)
        ensures
            final(registry).query_parameter_handlers() == old(
                registry,
            ).query_parameter_handlers().insert(
                VERTEX_ARRAY_BINDING_OES,
                QueryParameterHandler::VertexArrayBinding,
            ),
            final(registry).gl_extensions() == old(registry).gl_extensions(),
            final(registry).has_vertex_array_object() == old(registry).has_vertex_array_object(),
    {
        registry.add_query_parameter_handler(
            VERTEX_ARRAY_BINDING_OES,
            QueryParameterHandler::VertexArrayBinding,
        );
    }

    /// The name of the extension.
    pub fn name() -> (name: &'static str)
        ensures
            name@ == "OES_vertex_array_object"@,
    {
        "OES_vertex_array_object"
    }
}

/// Tells each buffer in `held` that the vertex array object named `id`
/// refers to it.
fn add_vao_references(ctx: &mut RenderingContext, held: &Vec<BufferHandle>, id: VertexArrayId)
    requires
        forall|k: int| 0 <= k < held@.len() ==> old(ctx)@.has_buffer(#[trigger] held@[k]),
    ensures
        final(ctx).storage_wf() == old(ctx).storage_wf(),
        final(ctx)@ == (ContextView {
            buffers: model::add_vao_references(old(ctx)@.buffers, held@.to_set(), id),
            ..old(ctx)@
        }),
{
    let mut k: usize = 0;
    while k < held.len()
        invariant
            k <= held@.len(),
            forall|n: int| 0 <= n < held@.len() ==> old(ctx)@.has_buffer(#[trigger] held@[n]),
            ctx.storage_wf() == old(ctx).storage_wf(),
            ctx@ == (ContextView {
                buffers: model::add_vao_references(
                    old(ctx)@.buffers,
                    held@.take(k as int).to_set(),
                    id,
                ),
                ..old(ctx)@
            }),
        decreases held@.len() - k,
    {
        let buffer = held[k];
        ctx.buffer_mut(buffer).add_vao_reference(id);
        proof {
            let done = held@.take(k as int);
            assert(held@.take(k + 1) =~= done.push(buffer));
            done.lemma_push_to_set_commute(buffer);
            model::lemma_add_vao_reference(old(ctx)@.buffers, done.to_set(), buffer, id);
        }
        k += 1;
    }
    assert(held@.take(k as int) =~= held@);
}

/// Tells each buffer in `held` that the vertex array object named `id` no
/// longer refers to it.
fn remove_vao_references(ctx: &mut RenderingContext, held: &Vec<BufferHandle>, id: VertexArrayId)
    requires
        forall|k: int| 0 <= k < held@.len() ==> old(ctx)@.has_buffer(#[trigger] held@[k]),
    ensures
        final(ctx).storage_wf() == old(ctx).storage_wf(),
        final(ctx)@ == (ContextView {
            buffers: model::remove_vao_references(old(ctx)@.buffers, held@.to_set(), id),
            ..old(ctx)@
        }),
{
    let mut k: usize = 0;
    while k < held.len()
        invariant
            k <= held@.len(),
            forall|n: int| 0 <= n < held@.len() ==> old(ctx)@.has_buffer(#[trigger] held@[n]),
            ctx.storage_wf() == old(ctx).storage_wf(),
            ctx@ == (ContextView {
                buffers: model::remove_vao_references(
                    old(ctx)@.buffers,
                    held@.take(k as int).to_set(),
                    id,
                ),
                ..old(ctx)@
            }),
        decreases held@.len() - k,
    {
        let buffer = held[k];
        ctx.buffer_mut(buffer).remove_vao_reference(id);
        proof {
            let done = held@.take(k as int);
            assert(held@.take(k + 1) =~= done.push(buffer));
            done.lemma_push_to_set_commute(buffer);
            model::lemma_remove_vao_reference(old(ctx)@.buffers, done.to_set(), buffer, id);
        }
        k += 1;
    }
    assert(held@.take(k as int) =~= held@);
}

/// In a well-formed context, every buffer that a vertex array object stores
/// exists.
proof fn lemma_held_buffers_exist(ctx: ContextView, vao: VertexArrayHandle, held: Seq<BufferHandle>)
    requires
        ctx.wf(),
        ctx.has_vertex_array(vao),
        held.to_set() == ctx.vertex_array(vao).held_buffers(),
    ensures
        forall|k: int| 0 <= k < held.len() ==> ctx.has_buffer(#[trigger] held[k]),
{
    let object = ctx.vertex_array(vao);
    assert(ctx.vertex_arrays[vao.0 as int].within(ctx.buffers.len()));
    assert forall|k: int| 0 <= k < held.len() implies ctx.has_buffer(#[trigger] held[k]) by {
        let b = held[k];
        assert(held.to_set().contains(b));
        assert(object.holds(b));
        if references(object.attrib_buffers, b) {
            let slot = choose|slot: u32| #[trigger]
                object.attrib_buffers.contains_key(slot) && object.attrib_buffers[slot].buffer
                    == Some(b);
            assert(object.attrib_buffers.contains_key(slot));
        }
    }
}

} // verus!
