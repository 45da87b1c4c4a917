//! The state of a rendering context as contracts see it, and the vertex
//! array state machine as functions from one such state to the next.

use crate::attrib_buffers::{buffers_within, AttribBinding, BufferHandle};
use crate::buffer::BufferView;
use crate::protocol::{AllocationFailure, BufferId, VertexArrayId, WebGLCommand, WebGLError};
use crate::vertex_array::{VertexArrayHandle, VertexArrayView};
use vstd::prelude::*;

verus! {

/// The buffer at place `index` is one of `held`.
pub open spec fn is_held(held: Set<BufferHandle>, index: int) -> bool {
    0 <= index <= usize::MAX && held.contains(BufferHandle(index as usize))
}

/// Each buffer of `held` gets `id` added to its references; the others stay
/// as they are.
pub open spec fn add_vao_references(
    buffers: Seq<BufferView>,
    held: Set<BufferHandle>,
    id: VertexArrayId,
) -> Seq<BufferView> {
    Seq::new(
        buffers.len(),
        |i: int|
            if is_held(held, i) {
                buffers[i].add_vao_reference(id)
            } else {
                buffers[i]
            },
    )
}

/// Each buffer of `held` has `id` taken from its references; the others stay
/// as they are.
pub open spec fn remove_vao_references(
    buffers: Seq<BufferView>,
    held: Set<BufferHandle>,
    id: VertexArrayId,
) -> Seq<BufferView> {
    Seq::new(
        buffers.len(),
        |i: int|
            if is_held(held, i) {
                buffers[i].remove_vao_reference(id)
            } else {
                buffers[i]
            },
    )
}

/// Adding `id` for one buffer more changes the references of that buffer
/// only, by adding `id` to them.
pub proof fn lemma_add_vao_reference(
    buffers: Seq<BufferView>,
    held: Set<BufferHandle>,
    buffer: BufferHandle,
    id: VertexArrayId,
)
    requires
        buffer.0 < buffers.len(),
    ensures
        add_vao_references(buffers, held.insert(buffer), id) == add_vao_references(
            buffers,
            held,
            id,
        ).update(
            buffer.0 as int,
            add_vao_references(buffers, held, id)[buffer.0 as int].add_vao_reference(id),
        ),
{
    let before = add_vao_references(buffers, held, id);
    let after = add_vao_references(buffers, held.insert(buffer), id);
    assert forall|i: int| 0 <= i < buffers.len() implies #[trigger] after[i] == before.update(
        buffer.0 as int,
        before[buffer.0 as int].add_vao_reference(id),
    )[i] by {
        if i == buffer.0 {
            assert(BufferHandle(i as usize) == buffer);
            assert(buffers[i].add_vao_reference(id).add_vao_reference(id)
                =~= buffers[i].add_vao_reference(id));
        } else {
            assert(i <= usize::MAX ==> BufferHandle(i as usize) != buffer);
        }
    }
    assert(after =~= before.update(
        buffer.0 as int,
        before[buffer.0 as int].add_vao_reference(id),
    ));
}

/// Taking `id` away for one buffer more changes the references of that
/// buffer only, by taking `id` from them.
pub proof fn lemma_remove_vao_reference(
    buffers: Seq<BufferView>,
    held: Set<BufferHandle>,
    buffer: BufferHandle,
    id: VertexArrayId,
)
    requires
        buffer.0 < buffers.len(),
    ensures
        remove_vao_references(buffers, held.insert(buffer), id) == remove_vao_references(
            buffers,
            held,
            id,
        ).update(
            buffer.0 as int,
            remove_vao_references(buffers, held, id)[buffer.0 as int].remove_vao_reference(id),
        ),
{
    let before = remove_vao_references(buffers, held, id);
    let after = remove_vao_references(buffers, held.insert(buffer), id);
    assert forall|i: int| 0 <= i < buffers.len() implies #[trigger] after[i] == before.update(
        buffer.0 as int,
        before[buffer.0 as int].remove_vao_reference(id),
    )[i] by {
        if i == buffer.0 {
            assert(BufferHandle(i as usize) == buffer);
            assert(buffers[i].remove_vao_reference(id).remove_vao_reference(id)
                =~= buffers[i].remove_vao_reference(id));
        } else {
            assert(i <= usize::MAX ==> BufferHandle(i as usize) != buffer);
        }
    }
    assert(after =~= before.update(
        buffer.0 as int,
        before[buffer.0 as int].remove_vao_reference(id),
    ));
}

/// The state of a rendering context.
#[verifier::ext_equal]
pub struct ContextView {
    /// Every vertex array object created so far, deleted ones included, each
    /// at the place that its handle names.
    pub vertex_arrays: Seq<VertexArrayView>,
    /// The buffer objects, each at the place that its handle names.
    pub buffers: Seq<BufferView>,
    /// The vertex array object that is bound, if one is.
    pub bound_vertex_array: Option<VertexArrayHandle>,
    /// The current attribute-buffer bindings.
    pub attrib_buffers: Map<u32, AttribBinding>,
    /// The current index buffer.
    pub element_array_buffer: Option<BufferHandle>,
    /// The commands issued and not yet handed to the transport, oldest first.
    pub commands: Seq<WebGLCommand>,
    /// The errors raised and not yet collected, oldest first.
    pub errors: Seq<WebGLError>,
}

impl ContextView {
    /// A context in which nothing has happened yet.
    pub open spec fn initial() -> ContextView {
        ContextView {
            vertex_arrays: Seq::empty(),
            buffers: Seq::empty(),
            bound_vertex_array: None,
            attrib_buffers: Map::empty(),
            element_array_buffer: None,
            commands: Seq::empty(),
            errors: Seq::empty(),
        }
    }

    /// `vao` names a vertex array object of this context.
    pub open spec fn has_vertex_array(self, vao: VertexArrayHandle) -> bool {
        vao.0 < self.vertex_arrays.len()
    }

    /// `buffer` names a buffer object of this context.
    pub open spec fn has_buffer(self, buffer: BufferHandle) -> bool {
        buffer.0 < self.buffers.len()
    }

    /// The vertex array object that `vao` names.
    pub open spec fn vertex_array(self, vao: VertexArrayHandle) -> VertexArrayView {
        self.vertex_arrays[vao.0 as int]
    }

    /// The buffer object that `buffer` names.
    pub open spec fn buffer(self, buffer: BufferHandle) -> BufferView {
        self.buffers[buffer.0 as int]
    }

    /// `target` is absent or names a vertex array object of this context.
    pub open spec fn admits(self, target: Option<VertexArrayHandle>) -> bool {
        target matches Some(vao) ==> self.has_vertex_array(vao)
    }

    /// The bound vertex array object exists and is not deleted, and every
    /// buffer held anywhere exists.
    pub open spec fn wf(self) -> bool {
        &&& self.bound_vertex_array matches Some(bound) ==> self.has_vertex_array(bound)
            && !self.vertex_array(bound).deleted
        &&& buffers_within(self.attrib_buffers, self.buffers.len())
        &&& self.element_array_buffer matches Some(b) ==> self.has_buffer(b)
        &&& forall|i: int|
            0 <= i < self.vertex_arrays.len() ==> (#[trigger] self.vertex_arrays[i]).within(
                self.buffers.len(),
            )
    }

    /// The context after a buffer object with the name `id` was added.
    pub open spec fn create_buffer(self, id: BufferId) -> ContextView {
        ContextView { buffers: self.buffers.push(BufferView::fresh(id)), ..self }
    }

    /// The context after the attribute slot `slot` was bound to `binding`.
    pub open spec fn bind_attrib_buffer(self, slot: u32, binding: AttribBinding) -> ContextView {
        ContextView { attrib_buffers: self.attrib_buffers.insert(slot, binding), ..self }
    }

    /// Whether the query for a vertex array object answers yes: `target`
    /// names an object of this context that is not deleted and was bound at
    /// least once.
    pub open spec fn is_vertex_array(self, target: Option<VertexArrayHandle>) -> bool {
        target matches Some(vao) && self.has_vertex_array(vao) && !self.vertex_array(vao).deleted
            && self.vertex_array(vao).ever_bound
    }

    /// The context after the renderer answered a request for a new vertex
    /// array object with `reply`: a new object at the end on success, no
    /// change on failure.
    pub open spec fn create_vertex_array(
        self,
        reply: Result<VertexArrayId, AllocationFailure>,
    ) -> ContextView {
        match reply {
            Ok(id) => ContextView {
                vertex_arrays: self.vertex_arrays.push(VertexArrayView::fresh(id)),
                ..self
            },
            Err(_) => self,
        }
    }

    /// The bound vertex array object as it is after the current bindings
    /// were copied into it.
    pub open spec fn saved_vertex_array(self, bound: VertexArrayHandle) -> VertexArrayView {
        VertexArrayView {
            attrib_buffers: self.attrib_buffers,
            element_array_buffer: self.element_array_buffer,
            ..self.vertex_array(bound)
        }
    }

    /// The first phase of binding: the current bindings are copied into the
    /// bound vertex array object, and each buffer among them learns the
    /// object's name. Nothing changes where no object is bound.
    pub open spec fn save_bound_vertex_array(self) -> ContextView {
        match self.bound_vertex_array {
            Some(bound) => ContextView {
                vertex_arrays: self.vertex_arrays.update(
                    bound.0 as int,
                    self.saved_vertex_array(bound),
                ),
                buffers: add_vao_references(
                    self.buffers,
                    self.saved_vertex_array(bound).held_buffers(),
                    self.vertex_array(bound).id,
                ),
                ..self
            },
            None => self,
        }
    }

    /// The context after `target` was bound.
    ///
    /// The current bindings are first saved into the object that was bound.
    /// A deleted target then raises `InvalidOperation` and nothing more
    /// happens. Otherwise a bind command is issued; a present target becomes
    /// the bound object, is marked as bound once, and its stored bindings
    /// become the current ones; an absent target leaves no object bound and
    /// no attribute slot bound.
    pub open spec fn bind_vertex_array(self, target: Option<VertexArrayHandle>) -> ContextView {
        let saved = self.save_bound_vertex_array();
        match target {
            Some(vao) => {
                let object = saved.vertex_array(vao);
                if object.deleted {
                    ContextView { errors: saved.errors.push(WebGLError::InvalidOperation), ..saved }
                } else {
                    ContextView {
                        vertex_arrays: saved.vertex_arrays.update(
                            vao.0 as int,
                            VertexArrayView { ever_bound: true, ..object },
                        ),
                        bound_vertex_array: Some(vao),
                        attrib_buffers: object.attrib_buffers,
                        element_array_buffer: object.element_array_buffer,
                        commands: saved.commands.push(
                            WebGLCommand::BindVertexArray(Some(object.id)),
                        ),
                        ..saved
                    }
                }
            },
            None => ContextView {
                bound_vertex_array: None,
                attrib_buffers: Map::empty(),
                commands: saved.commands.push(WebGLCommand::BindVertexArray(None)),
                ..saved
            },
        }
    }

    /// Deleting `vao` unbinds first: the bound object has the name of `vao`.
    /// Objects are told apart by their names, as the renderer tells them
    /// apart.
    pub open spec fn unbinds(self, vao: VertexArrayHandle) -> bool {
        self.bound_vertex_array matches Some(bound) && self.vertex_array(bound).id
            == self.vertex_array(vao).id
    }

    /// The context after `target` was deleted.
    ///
    /// Nothing happens for an absent or deleted target. Otherwise, where the
    /// target is bound, it is unbound and a bind command for no object is
    /// issued; each buffer that the target stores forgets the target's name;
    /// a delete command is issued; the target is marked as deleted.
    pub open spec fn delete_vertex_array(self, target: Option<VertexArrayHandle>) -> ContextView {
        match target {
            Some(vao) => {
                let object = self.vertex_array(vao);
                if object.deleted {
                    self
                } else {
                    let commands = if self.unbinds(vao) {
                        self.commands.push(WebGLCommand::BindVertexArray(None))
                    } else {
                        self.commands
                    };
                    ContextView {
                        vertex_arrays: self.vertex_arrays.update(
                            vao.0 as int,
                            VertexArrayView { deleted: true, ..object },
                        ),
                        buffers: remove_vao_references(
                            self.buffers,
                            object.held_buffers(),
                            object.id,
                        ),
                        bound_vertex_array: if self.unbinds(vao) {
                            None
                        } else {
                            self.bound_vertex_array
                        },
                        commands: commands.push(WebGLCommand::DeleteVertexArray(object.id)),
                        ..self
                    }
                }
            },
            None => self,
        }
    }
}

} // verus!
