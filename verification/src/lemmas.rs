//! What holds of the vertex array state machine, whatever state it is in.

use crate::attrib_buffers::{AttribBinding, BufferHandle};
use crate::model::ContextView;
use crate::protocol::{AllocationFailure, VertexArrayId, WebGLCommand, WebGLError};
use crate::vertex_array::VertexArrayHandle;
use vstd::prelude::*;

verus! {

/// `after` follows `before` by one step that does not bind `vao` with
/// success: the creation of a vertex array object, the binding of another
/// target or of `vao` while it is deleted, a deletion, or a step of the
/// context that leaves the vertex array objects alone.
pub open spec fn step_without_binding(
    before: ContextView,
    after: ContextView,
    vao: VertexArrayHandle,
) -> bool {
    ||| exists|reply: Result<VertexArrayId, AllocationFailure>|
        after == #[trigger] before.create_vertex_array(reply)
    ||| exists|target: Option<VertexArrayHandle>|
        before.admits(target) && (target == Some(vao) ==> before.vertex_array(vao).deleted)
            && after == #[trigger] before.bind_vertex_array(target)
    ||| exists|target: Option<VertexArrayHandle>|
        before.admits(target) && after == #[trigger] before.delete_vertex_array(target)
    ||| after.vertex_arrays == before.vertex_arrays
}

/// A vertex array object that has never been bound is no vertex array to the
/// query: from a state in which `vao` is not marked as bound, through any
/// number of steps none of which binds `vao` with success, the query for
/// `vao` answers no in every state passed.
pub proof fn lemma_never_bound_is_no_vertex_array(trace: Seq<ContextView>, vao: VertexArrayHandle)
    requires
        trace.len() > 0,
        forall|i: int| 0 <= i < trace.len() ==> (#[trigger] trace[i]).wf(),
        trace[0].has_vertex_array(vao),
        !trace[0].vertex_array(vao).ever_bound,
        forall|i: int|
            0 <= i < trace.len() - 1 ==> step_without_binding(#[trigger] trace[i], trace[i + 1], vao),
    ensures
        forall|i: int|
            0 <= i < trace.len() ==> (#[trigger] trace[i]).has_vertex_array(vao) && !trace[i].vertex_array(
                vao,
            ).ever_bound && !trace[i].is_vertex_array(Some(vao)),
    decreases trace.len(),
{
    if trace.len() > 1 {
        let head = trace.drop_last();
        assert forall|i: int| 0 <= i < head.len() - 1 implies step_without_binding(
            #[trigger] head[i],
            head[i + 1],
            vao,
        ) by {
            assert(step_without_binding(trace[i], trace[i + 1], vao));
        }
        assert forall|i: int| 0 <= i < head.len() implies (#[trigger] head[i]).wf() by {
            assert(trace[i].wf());
        }
        lemma_never_bound_is_no_vertex_array(head, vao);
        let before = trace[trace.len() - 2];
        let after = trace[trace.len() - 1];
        assert(before == head[head.len() - 1]);
        assert(before.wf());
        assert(step_without_binding(before, after, vao));
        assert(after.has_vertex_array(vao) && !after.vertex_array(vao).ever_bound);
        assert forall|i: int| 0 <= i < trace.len() implies (#[trigger] trace[i]).has_vertex_array(
            vao,
        ) && !trace[i].vertex_array(vao).ever_bound && !trace[i].is_vertex_array(Some(vao)) by {
            if i < head.len() {
                assert(trace[i] == head[i]);
            }
        }
    }
}

/// Once a vertex array object that is not deleted has been bound, the query
/// for it answers yes.
pub proof fn lemma_bound_is_vertex_array(ctx: ContextView, vao: VertexArrayHandle)
    requires
        ctx.wf(),
        ctx.has_vertex_array(vao),
        !ctx.vertex_array(vao).deleted,
    ensures
        ctx.bind_vertex_array(Some(vao)).is_vertex_array(Some(vao)),
        ctx.bind_vertex_array(Some(vao)).bound_vertex_array == Some(vao),
{
}

/// Deleting the bound vertex array object leaves no object bound, and
/// issues exactly two commands: one to bind no object, then one to delete
/// the object.
pub proof fn lemma_delete_bound_unbinds(ctx: ContextView, vao: VertexArrayHandle)
    requires
        ctx.wf(),
        ctx.bound_vertex_array == Some(vao),
    ensures
        ctx.delete_vertex_array(Some(vao)).bound_vertex_array is None,
        ctx.delete_vertex_array(Some(vao)).commands == ctx.commands.push(
            WebGLCommand::BindVertexArray(None),
        ).push(WebGLCommand::DeleteVertexArray(ctx.vertex_array(vao).id)),
{
}

/// Deleting a vertex array object a second time changes nothing: no state,
/// and so no command either.
pub proof fn lemma_delete_twice(ctx: ContextView, target: Option<VertexArrayHandle>)
    requires
        ctx.admits(target),
    ensures
        ctx.delete_vertex_array(target).delete_vertex_array(target) == ctx.delete_vertex_array(
            target,
        ),
{
}

/// Binding a deleted vertex array object raises `InvalidOperation`, leaves
/// the bound object bound, and issues no command.
pub proof fn lemma_bind_deleted_raises(ctx: ContextView, vao: VertexArrayHandle)
    requires
        ctx.wf(),
        ctx.has_vertex_array(vao),
        ctx.vertex_array(vao).deleted,
    ensures
        ctx.bind_vertex_array(Some(vao)).errors == ctx.errors.push(WebGLError::InvalidOperation),
        ctx.bind_vertex_array(Some(vao)).bound_vertex_array == ctx.bound_vertex_array,
        ctx.bind_vertex_array(Some(vao)).commands == ctx.commands,
{
}

/// What is bound to an attribute slot while a vertex array object is bound
/// comes back when that object is bound again, whatever was bound in
/// between.
pub proof fn lemma_bind_round_trip(
    ctx: ContextView,
    first: VertexArrayHandle,
    second: VertexArrayHandle,
    slot: u32,
    binding: AttribBinding,
)
    requires
        ctx.wf(),
        ctx.has_vertex_array(first),
        !ctx.vertex_array(first).deleted,
        ctx.has_vertex_array(second),
    ensures
        ({
            let attached = ctx.bind_vertex_array(Some(first)).bind_attrib_buffer(slot, binding);
            let back = attached.bind_vertex_array(Some(second)).bind_vertex_array(Some(first));
            &&& back.attrib_buffers.contains_key(slot)
            &&& back.attrib_buffers[slot] == binding
            &&& back.attrib_buffers == attached.attrib_buffers
            &&& back.bound_vertex_array == Some(first)
        }),
{
}

/// After a vertex array object is deleted, no buffer that it stored lists
/// its name any more.
pub proof fn lemma_delete_removes_references(
    ctx: ContextView,
    vao: VertexArrayHandle,
    buffer: BufferHandle,
)
    requires
        ctx.wf(),
        ctx.has_vertex_array(vao),
        !ctx.vertex_array(vao).deleted,
        ctx.vertex_array(vao).holds(buffer),
    ensures
        ctx.has_buffer(buffer),
        !ctx.delete_vertex_array(Some(vao)).buffer(buffer).vao_references.contains(
            ctx.vertex_array(vao).id,
        ),
{
}

/// Creating, binding and deleting keep a well-formed context well formed.
pub proof fn lemma_steps_keep_well_formed(
    ctx: ContextView,
    target: Option<VertexArrayHandle>,
    reply: Result<VertexArrayId, AllocationFailure>,
)
    requires
        ctx.wf(),
        ctx.admits(target),
    ensures
        ctx.create_vertex_array(reply).wf(),
        ctx.bind_vertex_array(target).wf(),
        ctx.delete_vertex_array(target).wf(),
{
}

/// A vertex array object keeps its place and its name, and its two flags
/// are never cleared: neither by creating, nor by binding, nor by deleting.
pub proof fn lemma_flags_only_rise(
    ctx: ContextView,
    vao: VertexArrayHandle,
    target: Option<VertexArrayHandle>,
    reply: Result<VertexArrayId, AllocationFailure>,
)
    requires
        ctx.wf(),
        ctx.has_vertex_array(vao),
        ctx.admits(target),
    ensures
        ({
            let before = ctx.vertex_array(vao);
            let created = ctx.create_vertex_array(reply);
            let bound = ctx.bind_vertex_array(target);
            let deleted = ctx.delete_vertex_array(target);
            &&& created.has_vertex_array(vao) && created.vertex_array(vao) == before
            &&& bound.has_vertex_array(vao) && bound.vertex_array(vao).id == before.id
            &&& before.deleted == bound.vertex_array(vao).deleted
            &&& before.ever_bound ==> bound.vertex_array(vao).ever_bound
            &&& deleted.has_vertex_array(vao) && deleted.vertex_array(vao).id == before.id
            &&& before.deleted ==> deleted.vertex_array(vao).deleted
            &&& before.ever_bound == deleted.vertex_array(vao).ever_bound
        }),
{
}

/// A deleted vertex array object is inert: neither creating, nor binding,
/// nor deleting changes anything in it.
pub proof fn lemma_deleted_is_inert(
    ctx: ContextView,
    vao: VertexArrayHandle,
    target: Option<VertexArrayHandle>,
    reply: Result<VertexArrayId, AllocationFailure>,
)
    requires
        ctx.wf(),
        ctx.has_vertex_array(vao),
        ctx.vertex_array(vao).deleted,
        ctx.admits(target),
    ensures
        ctx.create_vertex_array(reply).vertex_array(vao) == ctx.vertex_array(vao),
        ctx.bind_vertex_array(target).vertex_array(vao) == ctx.vertex_array(vao),
        ctx.delete_vertex_array(target).vertex_array(vao) == ctx.vertex_array(vao),
{
}

/// Only the binding of a deleted vertex array object raises an error, and
/// the error is `InvalidOperation`.
pub proof fn lemma_only_binding_a_deleted_object_raises(
    ctx: ContextView,
    target: Option<VertexArrayHandle>,
    reply: Result<VertexArrayId, AllocationFailure>,
)
    requires
        ctx.wf(),
        ctx.admits(target),
    ensures
        ctx.create_vertex_array(reply).errors == ctx.errors,
        ctx.delete_vertex_array(target).errors == ctx.errors,
        ctx.bind_vertex_array(target).errors == (if target matches Some(vao) && ctx.vertex_array(
            vao,
        ).deleted {
            ctx.errors.push(WebGLError::InvalidOperation)
        } else {
            ctx.errors
        }),
{
}

/// Commands are only ever added behind those already queued: creating adds
/// none, binding at most one, deleting at most two.
pub proof fn lemma_commands_are_appended(
    ctx: ContextView,
    target: Option<VertexArrayHandle>,
    reply: Result<VertexArrayId, AllocationFailure>,
)
    requires
        ctx.wf(),
        ctx.admits(target),
    ensures
        ctx.create_vertex_array(reply).commands == ctx.commands,
        ctx.commands.is_prefix_of(ctx.bind_vertex_array(target).commands),
        ctx.bind_vertex_array(target).commands.len() <= ctx.commands.len() + 1,
        ctx.commands.is_prefix_of(ctx.delete_vertex_array(target).commands),
        ctx.delete_vertex_array(target).commands.len() <= ctx.commands.len() + 2,
{
}

} // verus!
