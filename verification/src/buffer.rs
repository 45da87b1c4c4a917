//! Buffer objects, as far as vertex arrays are concerned: each knows the
//! vertex array objects that refer to it.

use crate::protocol::{BufferId, VertexArrayId};
use std::collections::HashSet;
use vstd::prelude::*;

verus! {

/// What a buffer object holds.
#[verifier::ext_equal]
pub struct BufferView {
    /// The buffer's name.
    pub id: BufferId,
    /// The names of the vertex array objects that refer to the buffer.
    pub vao_references: Set<VertexArrayId>,
}

impl BufferView {
    /// A buffer to which no vertex array refers.
    pub open spec fn fresh(id: BufferId) -> BufferView {
        BufferView { id, vao_references: Set::empty() }
    }

    /// The buffer with the name `id` added to its references.
    pub open spec fn add_vao_reference(self, id: VertexArrayId) -> BufferView {
        BufferView { vao_references: self.vao_references.insert(id), ..self }
    }

    /// The buffer with the name `id` taken from its references.
    pub open spec fn remove_vao_reference(self, id: VertexArrayId) -> BufferView {
        BufferView { vao_references: self.vao_references.remove(id), ..self }
    }
}

/// A buffer object. It does not own the vertex arrays that refer to it: it
/// holds their names only.
#[derive(Debug)]
pub struct BufferObject {
    id: BufferId,
    vao_references: HashSet<u32>,
}

impl BufferObject {
    /// What the buffer holds.
    pub closed spec fn view(&self) -> BufferView {
        BufferView {
            id: self.id,
            vao_references: Set::new(|id: VertexArrayId| self.vao_references@.contains(id.0)),
        }
    }

    /// A buffer with the name `id`, to which no vertex array refers.
    pub fn new(id: BufferId) -> (buffer: Self)
        ensures
            buffer@ == BufferView::fresh(id),
    {
        let buffer = BufferObject { id, vao_references: HashSet::new() };
        assert(buffer@ =~= BufferView::fresh(id));
        buffer
    }

    /// The buffer's name.
    pub fn id(&self) -> (id: BufferId)
        ensures
            id == self@.id,
    {
        self.id
    }

    /// Whether the vertex array object named `id` refers to this buffer.
    pub fn has_vao_reference(&self, id: VertexArrayId) -> (found: bool)
        ensures
            found == self@.vao_references.contains(id),
    {
        self.vao_references.contains(&id.0)
    }

    /// Records that the vertex array object named `id` refers to this buffer.
    pub fn add_vao_reference(&mut self, id: VertexArrayId)
        ensures
            final(self)@ == old(self)@.add_vao_reference(id),
    {
        self.vao_references.insert(id.0);
        assert(self@ =~= old(self)@.add_vao_reference(id));
    }

    /// Records that the vertex array object named `id` no longer refers to
    /// this buffer.
    pub fn remove_vao_reference(&mut self, id: VertexArrayId)
        ensures
            final(self)@ == old(self)@.remove_vao_reference(id),
    {
        self.vao_references.remove(&id.0);
        assert(self@ =~= old(self)@.remove_vao_reference(id));
    }
}

} // verus!
