//! Vertex array objects: a name, two flags, and the stored bindings.

use crate::attrib_buffers::{
    buffers_within, entry_buffers, references, AttribBinding, BoundAttribBuffers, BufferHandle,
};
use crate::protocol::VertexArrayId;
use vstd::prelude::*;

verus! {

/// Names a vertex array object of a rendering context: its place among the
/// objects that the context has created. A place is never given twice.
#[derive(Clone, Copy, Debug, PartialEq, Eq, Structural)]
pub struct VertexArrayHandle(pub usize);

/// What a vertex array object holds.
#[verifier::ext_equal]
pub struct VertexArrayView {
    /// The name that the renderer gave it.
    pub id: VertexArrayId,
    /// Set when the object is deleted, and never cleared.
    pub deleted: bool,
    /// Set when the object is first bound, and never cleared.
    pub ever_bound: bool,
    /// The attribute-buffer bindings stored in it.
    pub attrib_buffers: Map<u32, AttribBinding>,
    /// The index buffer stored in it.
    pub element_array_buffer: Option<BufferHandle>,
}

impl VertexArrayView {
    /// A new object: no flag set, nothing stored.
    pub open spec fn fresh(id: VertexArrayId) -> VertexArrayView {
        VertexArrayView {
            id,
            deleted: false,
            ever_bound: false,
            attrib_buffers: Map::empty(),
            element_array_buffer: None,
        }
    }

    /// The object stores `buffer`, in an attribute slot or as its index buffer.
    pub open spec fn holds(self, buffer: BufferHandle) -> bool {
        references(self.attrib_buffers, buffer) || self.element_array_buffer == Some(buffer)
    }

    /// The buffers that the object stores.
    pub open spec fn held_buffers(self) -> Set<BufferHandle> {
        Set::new(|buffer: BufferHandle| self.holds(buffer))
    }

    /// Every buffer that the object stores is one of the first `count`.
    pub open spec fn within(self, count: nat) -> bool {
        &&& buffers_within(self.attrib_buffers, count)
        &&& self.element_array_buffer matches Some(b) ==> b.0 < count
    }
}

/// A vertex array object.
#[derive(Debug)]
pub struct VertexArrayObject {
    id: VertexArrayId,
    is_deleted: bool,
    ever_bound: bool,
    bound_attrib_buffers: BoundAttribBuffers,
    bound_buffer_element_array: Option<BufferHandle>,
}

impl VertexArrayObject {
    /// What the object holds.
    pub closed spec fn view(&self) -> VertexArrayView {
        VertexArrayView {
            id: self.id,
            deleted: self.is_deleted,
            ever_bound: self.ever_bound,
            attrib_buffers: self.bound_attrib_buffers@,
            element_array_buffer: self.bound_buffer_element_array,
        }
    }

    /// The stored bindings are well formed.
    pub closed spec fn wf(&self) -> bool {
        self.bound_attrib_buffers.wf()
    }

    /// The stored attribute-buffer bindings, in the order in which their
    /// slots were first bound.
    pub closed spec fn attrib_entries(&self) -> Seq<(u32, AttribBinding)> {
        self.bound_attrib_buffers.entries()
    }

    /// A new object with the name `id`.
    pub fn new(id: VertexArrayId) -> (vao: Self)
        ensures
            vao.wf(),
            vao@ == VertexArrayView::fresh(id),
            vao.attrib_entries() == Seq::<(u32, AttribBinding)>::empty(),
    {
        VertexArrayObject {
            id,
            is_deleted: false,
            ever_bound: false,
            bound_attrib_buffers: BoundAttribBuffers::new(),
            bound_buffer_element_array: None,
        }
    }

    /// The object's name.
    pub fn id(&self) -> (id: VertexArrayId)
        ensures
            id == self@.id,
    {
        self.id
    }

    /// Whether the object was deleted.
    pub fn is_deleted(&self) -> (deleted: bool)
        ensures
            deleted == self@.deleted,
    {
        self.is_deleted
    }

    /// Marks the object as deleted, for good.
    pub fn set_deleted(&mut self)
        ensures
            final(self).wf() == old(self).wf(),
            final(self).attrib_entries() == old(self).attrib_entries(),
            final(self)@ == (VertexArrayView { deleted: true, ..old(self)@ }),
    {
        self.is_deleted = true;
    }

    /// Whether the object was ever bound.
    pub fn ever_bound(&self) -> (bound: bool)
        ensures
            bound == self@.ever_bound,
    {
        self.ever_bound
    }

    /// Marks the object as having been bound.
    pub fn set_ever_bound(&mut self)
        requires
            !old(self)@.deleted,
        ensures
            final(self).wf() == old(self).wf(),
            final(self).attrib_entries() == old(self).attrib_entries(),
            final(self)@ == (VertexArrayView { ever_bound: true, ..old(self)@ }),
    {
        self.ever_bound = true;
    }

    /// The stored attribute-buffer bindings.
    pub fn bound_attrib_buffers(&self) -> (stored: &BoundAttribBuffers)
        ensures
            stored@ == self@.attrib_buffers,
            stored.entries() == self.attrib_entries(),
            stored.wf() == self.wf(),
    {
        &self.bound_attrib_buffers
    }

    /// The stored attribute-buffer bindings, to be changed in place.
    pub fn bound_attrib_buffers_mut(&mut self) -> (stored: &mut BoundAttribBuffers)
        requires
            !old(self)@.deleted,
        ensures
            stored@ == old(self)@.attrib_buffers,
            stored.entries() == old(self).attrib_entries(),
            stored.wf() == old(self).wf(),
            final(self).wf() == final(stored).wf(),
            final(self).attrib_entries() == final(stored).entries(),
            final(self)@ == (VertexArrayView { attrib_buffers: final(stored)@, ..old(self)@ }),
    {
        &mut self.bound_attrib_buffers
    }

    /// The stored index buffer.
    pub fn bound_buffer_element_array(&self) -> (buffer: Option<BufferHandle>)
        ensures
            buffer == self@.element_array_buffer,
    {
        self.bound_buffer_element_array
    }

    /// The buffers that the object stores: those of its attribute slots, in
    /// the order in which the slots were first bound, then its index buffer.
    pub fn held_buffers(&self) -> (held: Vec<BufferHandle>)
        ensures
            held@ == entry_buffers(self.attrib_entries()) + (match self@.element_array_buffer {
                Some(buffer) => seq![buffer],
                None => Seq::empty(),
            }),
            self.wf() ==> held@.to_set() == self@.held_buffers(),
    {
        let mut held = self.bound_attrib_buffers.buffers();
        let ghost in_slots = held@;
        if let Some(buffer) = self.bound_buffer_element_array {
            held.push(buffer);
        }
        proof {
            assert forall|b: BufferHandle| self.wf() implies (held@.contains(b) <==> self@.holds(
                b,
            )) by {
                if in_slots.contains(b) {
                    let n = choose|n: int| 0 <= n < in_slots.len() && in_slots[n] == b;
                    assert(held@[n] == b);
                }
                if self.bound_buffer_element_array == Some(b) {
                    assert(held@[held@.len() - 1] == b);
                }
                if held@.contains(b) {
                    let n = choose|n: int| 0 <= n < held@.len() && held@[n] == b;
                    if n < in_slots.len() {
                        assert(in_slots[n] == b);
                    }
                }
            }
            if self.wf() {
                assert(held@.to_set() =~= self@.held_buffers());
            }
        }
        held
    }

    /// Stores `buffer` as the index buffer.
    pub fn set_bound_buffer_element_array(&mut self, buffer: Option<BufferHandle>)
        requires
            !old(self)@.deleted,
        ensures
            final(self).wf() == old(self).wf(),
            final(self).attrib_entries() == old(self).attrib_entries(),
            final(self)@ == (VertexArrayView { element_array_buffer: buffer, ..old(self)@ }),
    {
        self.bound_buffer_element_array = buffer;
    }
}

} // verus!
