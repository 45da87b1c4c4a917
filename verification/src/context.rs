//! The part of a rendering context that vertex arrays touch: the objects,
//! the current bindings, the queue of commands for the renderer, and the
//! errors raised.

use crate::attrib_buffers::{buffers_within, AttribBinding, BoundAttribBuffers, BufferHandle};
use crate::buffer::BufferObject;
use crate::model::ContextView;
use crate::protocol::{BufferId, WebGLCommand, WebGLError};
use crate::vertex_array::{VertexArrayHandle, VertexArrayObject};
use vstd::prelude::*;

verus! {

/// A rendering context. It owns the vertex array objects and the buffer
/// objects, which others name by handles, and the slot that says which
/// vertex array object is bound.
#[derive(Debug)]
pub struct RenderingContext {
    vertex_arrays: Vec<VertexArrayObject>,
    buffers: Vec<BufferObject>,
    bound_vertex_array: Option<VertexArrayHandle>,
    bound_attrib_buffers: BoundAttribBuffers,
    bound_buffer_element_array: Option<BufferHandle>,
    commands: Vec<WebGLCommand>,
    errors: Vec<WebGLError>,
}

impl RenderingContext {
    /// The state of the context.
    pub closed spec fn view(&self) -> ContextView {
        ContextView {
            vertex_arrays: Seq::new(self.vertex_arrays@.len(), |i: int| self.vertex_arrays@[i]@),
            buffers: Seq::new(self.buffers@.len(), |i: int| self.buffers@[i]@),
            bound_vertex_array: self.bound_vertex_array,
            attrib_buffers: self.bound_attrib_buffers@,
            element_array_buffer: self.bound_buffer_element_array,
            commands: self.commands@,
            errors: self.errors@,
        }
    }

    /// Every store of attribute-buffer bindings in the context is well
    /// formed.
    pub closed spec fn storage_wf(&self) -> bool {
        &&& self.bound_attrib_buffers.wf()
        &&& forall|i: int|
            0 <= i < self.vertex_arrays@.len() ==> (#[trigger] self.vertex_arrays@[i]).wf()
    }

    /// The context is well formed: its stores are, and its state is.
    pub open spec fn wf(&self) -> bool {
        self.storage_wf() && self@.wf()
    }

    /// A context in which nothing has happened yet.
    pub fn new() -> (ctx: Self)
        ensures
            ctx.wf(),
            ctx@ == ContextView::initial(),
    {
        let ctx = RenderingContext {
            vertex_arrays: Vec::new(),
            buffers: Vec::new(),
            bound_vertex_array: None,
            bound_attrib_buffers: BoundAttribBuffers::new(),
            bound_buffer_element_array: None,
            commands: Vec::new(),
            errors: Vec::new(),
        };
        assert(ctx@ =~= ContextView::initial());
        ctx
    }

    /// Whether `vao` names a vertex array object of this context.
    pub fn has_vertex_array(&self, vao: VertexArrayHandle) -> (found: bool)
        ensures
            found == self@.has_vertex_array(vao),
    {
        vao.0 < self.vertex_arrays.len()
    }

    /// Whether `buffer` names a buffer object of this context.
    pub fn has_buffer(&self, buffer: BufferHandle) -> (found: bool)
        ensures
            found == self@.has_buffer(buffer),
    {
        buffer.0 < self.buffers.len()
    }

    /// The vertex array object that `vao` names.
    pub fn vertex_array(&self, vao: VertexArrayHandle) -> (object: &VertexArrayObject)
        requires
            self@.has_vertex_array(vao),
        ensures
            object@ == self@.vertex_array(vao),
            self.storage_wf() ==> object.wf(),
    {
        &self.vertex_arrays[vao.0]
    }

    /// The vertex array object that `vao` names, to be changed in place.
    pub(crate) fn vertex_array_mut(&mut self, vao: VertexArrayHandle) -> (object:
        &mut VertexArrayObject)
        requires
            old(self)@.has_vertex_array(vao),
        ensures
            object@ == old(self)@.vertex_array(vao),
            old(self).storage_wf() ==> object.wf(),
            old(self).storage_wf() && final(object).wf() ==> final(self).storage_wf(),
            final(self)@ == (ContextView {
                vertex_arrays: old(self)@.vertex_arrays.update(vao.0 as int, final(object)@),
                ..old(self)@
            }),
    {
        &mut self.vertex_arrays[vao.0]
    }

    /// The buffer object that `buffer` names.
    pub fn buffer(&self, buffer: BufferHandle) -> (object: &BufferObject)
        requires
            self@.has_buffer(buffer),
        ensures
            object@ == self@.buffer(buffer),
    {
        &self.buffers[buffer.0]
    }

    /// The buffer object that `buffer` names, to be changed in place.
    pub(crate) fn buffer_mut(&mut self, buffer: BufferHandle) -> (object: &mut BufferObject)
        requires
            old(self)@.has_buffer(buffer),
        ensures
            object@ == old(self)@.buffer(buffer),
            final(self).storage_wf() == old(self).storage_wf(),
            final(self)@ == (ContextView {
                buffers: old(self)@.buffers.update(buffer.0 as int, final(object)@),
                ..old(self)@
            }),
    {
        &mut self.buffers[buffer.0]
    }

    /// Adds a buffer object with the name `id`, to which no vertex array
    /// refers, and returns its handle.
    pub fn create_buffer(&mut self, id: BufferId) -> (buffer: BufferHandle)
        ensures
            final(self)@ == old(self)@.create_buffer(id),
            buffer.0 == old(self)@.buffers.len(),
            old(self).wf() ==> final(self).wf(),
    {
        let buffer = BufferHandle(self.buffers.len());
        self.buffers.push(BufferObject::new(id));
        assert(self@ =~= old(self)@.create_buffer(id));
        buffer
    }

    /// Adds `object` to the vertex array objects and returns its handle.
    pub(crate) fn add_vertex_array(&mut self, object: VertexArrayObject) -> (vao:
        VertexArrayHandle)
        requires
            object.wf(),
        ensures
            final(self)@ == (ContextView {
                vertex_arrays: old(self)@.vertex_arrays.push(object@),
                ..old(self)@
            }),
            vao.0 == old(self)@.vertex_arrays.len(),
            final(self).storage_wf() == old(self).storage_wf(),
    {
        let vao = VertexArrayHandle(self.vertex_arrays.len());
        self.vertex_arrays.push(object);
        assert(self@.vertex_arrays =~= old(self)@.vertex_arrays.push(object@));
        proof {
            if old(self).storage_wf() {
                assert forall|i: int| 0 <= i < self.vertex_arrays@.len() implies (
                #[trigger] self.vertex_arrays@[i]).wf() by {
                    if i < old(self).vertex_arrays@.len() {
                        assert(old(self).vertex_arrays@[i].wf());
                    }
                }
            }
            if self.storage_wf() {
                assert forall|i: int| 0 <= i < old(self).vertex_arrays@.len() implies (
                #[trigger] old(self).vertex_arrays@[i]).wf() by {
                    assert(self.vertex_arrays@[i].wf());
                }
            }
        }
        vao
    }

    /// The vertex array object that is bound, if one is.
    pub fn bound_vertex_array(&self) -> (bound: Option<VertexArrayHandle>)
        ensures
            bound == self@.bound_vertex_array,
    {
        self.bound_vertex_array
    }

    /// Makes `bound` the bound vertex array object.
    pub(crate) fn set_bound_vertex_array(&mut self, bound: Option<VertexArrayHandle>)
        ensures
            final(self)@ == (ContextView { bound_vertex_array: bound, ..old(self)@ }),
            final(self).storage_wf() == old(self).storage_wf(),
    {
        self.bound_vertex_array = bound;
    }

    /// The current attribute-buffer bindings.
    pub fn bound_attrib_buffers(&self) -> (current: &BoundAttribBuffers)
        ensures
            current@ == self@.attrib_buffers,
            self.storage_wf() ==> current.wf(),
    {
        &self.bound_attrib_buffers
    }

    /// Makes the current attribute-buffer bindings a copy of `bindings`.
    pub fn set_bound_attrib_buffers(&mut self, bindings: &BoundAttribBuffers)
        requires
            old(self).wf(),
            bindings.wf(),
            buffers_within(bindings@, old(self)@.buffers.len()),
        ensures
            final(self).wf(),
            final(self)@ == (ContextView { attrib_buffers: bindings@, ..old(self)@ }),
    {
        self.bound_attrib_buffers.set_from(bindings);
    }

    /// Binds the attribute slot `slot` to `binding`.
    pub fn bind_attrib_buffer(&mut self, slot: u32, binding: AttribBinding)
        requires
            old(self).wf(),
            binding.buffer matches Some(b) ==> old(self)@.has_buffer(b),
        ensures
            final(self).wf(),
            final(self)@ == old(self)@.bind_attrib_buffer(slot, binding),
    {
        self.bound_attrib_buffers.bind(slot, binding);
    }

    /// Unbinds every attribute slot.
    pub fn clear_bound_attrib_buffers(&mut self)
        requires
            old(self).wf(),
        ensures
            final(self).wf(),
            final(self)@ == (ContextView { attrib_buffers: Map::empty(), ..old(self)@ }),
    {
        self.bound_attrib_buffers.clear();
    }

    /// The current index buffer.
    pub fn bound_buffer_element_array(&self) -> (buffer: Option<BufferHandle>)
        ensures
            buffer == self@.element_array_buffer,
    {
        self.bound_buffer_element_array
    }

    /// Makes `buffer` the current index buffer.
    pub fn set_bound_buffer_element_array(&mut self, buffer: Option<BufferHandle>)
        requires
            old(self).wf(),
            buffer matches Some(b) ==> old(self)@.has_buffer(b),
        ensures
            final(self).wf(),
            final(self)@ == (ContextView { element_array_buffer: buffer, ..old(self)@ }),
    {
        self.bound_buffer_element_array = buffer;
    }

    /// Queues `command` for the renderer, behind the commands queued before.
    pub fn send_command(&mut self, command: WebGLCommand)
        ensures
            final(self).wf() == old(self).wf(),
            final(self).storage_wf() == old(self).storage_wf(),
            final(self)@ == (ContextView {
                commands: old(self)@.commands.push(command),
                ..old(self)@
            }),
    {
        self.commands.push(command);
    }

    /// Raises `error`.
    pub fn webgl_error(&mut self, error: WebGLError)
        ensures
            final(self).wf() == old(self).wf(),
            final(self).storage_wf() == old(self).storage_wf(),
            final(self)@ == (ContextView { errors: old(self)@.errors.push(error), ..old(self)@ }),
    {
        self.errors.push(error);
    }

    /// The queued commands, oldest first.
    pub fn pending_commands(&self) -> (commands: &Vec<WebGLCommand>)
        ensures
            commands@ == self@.commands,
    {
        &self.commands
    }

    /// The errors raised and not yet collected, oldest first.
    pub fn raised_errors(&self) -> (errors: &Vec<WebGLError>)
        ensures
            errors@ == self@.errors,
    {
        &self.errors
    }

    /// Hands out the queued commands, oldest first, and empties the queue.
    pub fn take_commands(&mut self) -> (commands: Vec<WebGLCommand>)
        ensures
            commands@ == old(self)@.commands,
            final(self).wf() == old(self).wf(),
            final(self)@ == (ContextView { commands: Seq::empty(), ..old(self)@ }),
    {
        let mut commands: Vec<WebGLCommand> = Vec::new();
        core::mem::swap(&mut commands, &mut self.commands);
        commands
    }

    /// Hands out the errors raised, oldest first, and forgets them.
    pub fn take_errors(&mut self) -> (errors: Vec<WebGLError>)
        ensures
            errors@ == old(self)@.errors,
            final(self).wf() == old(self).wf(),
            final(self)@ == (ContextView { errors: Seq::empty(), ..old(self)@ }),
    {
        let mut errors: Vec<WebGLError> = Vec::new();
        core::mem::swap(&mut errors, &mut self.errors);
        errors
    }
}

} // verus!
