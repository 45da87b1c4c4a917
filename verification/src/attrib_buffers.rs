//! Attribute-buffer bindings: which buffer, read how, feeds each vertex
//! attribute slot.

use vstd::prelude::*;

verus! {

/// Names a buffer object of a rendering context: its place among the
/// context's buffers.
#[derive(Clone, Copy, Debug, PartialEq, Eq, Structural)]
pub struct BufferHandle(pub usize);

/// How a vertex attribute reads the buffer bound to it.
#[derive(Clone, Copy, Debug, PartialEq, Eq, Structural)]
pub struct AttribDescriptor {
    pub enabled_as_array: bool,
    pub size: u8,
    pub normalized: bool,
    pub stride: u8,
    pub offset: u32,
}

/// What one attribute slot holds: the descriptor and the buffer, if any.
#[derive(Clone, Copy, Debug, PartialEq, Eq, Structural)]
pub struct AttribBinding {
    pub descriptor: AttribDescriptor,
    pub buffer: Option<BufferHandle>,
}

/// Some slot of `bindings` holds `buffer`.
pub open spec fn references(bindings: Map<u32, AttribBinding>, buffer: BufferHandle) -> bool {
    exists|slot: u32| #[trigger]
        bindings.contains_key(slot) && bindings[slot].buffer == Some(buffer)
}

/// Every buffer that `bindings` holds is one of the first `count` buffers.
pub open spec fn buffers_within(bindings: Map<u32, AttribBinding>, count: nat) -> bool {
    forall|slot: u32| #[trigger]
        bindings.contains_key(slot) ==> (bindings[slot].buffer matches Some(b) ==> b.0 < count)
}

/// No slot occurs twice in `entries`.
pub open spec fn distinct_slots(entries: Seq<(u32, AttribBinding)>) -> bool {
    forall|i: int, j: int|
        0 <= i < j < entries.len() ==> (#[trigger] entries[i]).0 != (#[trigger] entries[j]).0
}

/// Some entry of `entries` is for `slot`.
pub open spec fn has_slot(entries: Seq<(u32, AttribBinding)>, slot: u32) -> bool {
    exists|i: int| 0 <= i < entries.len() && (#[trigger] entries[i]).0 == slot
}

/// The place of an entry for `slot` in `entries`, where there is one.
pub open spec fn slot_index(entries: Seq<(u32, AttribBinding)>, slot: u32) -> int {
    choose|i: int| 0 <= i < entries.len() && (#[trigger] entries[i]).0 == slot
}

/// The mapping that a list of entries stands for.
pub open spec fn entries_map(entries: Seq<(u32, AttribBinding)>) -> Map<u32, AttribBinding> {
    Map::new(|slot: u32| has_slot(entries, slot), |slot: u32| entries[slot_index(entries, slot)].1)
}

/// With distinct slots, each entry is what the mapping holds for its slot.
pub proof fn lemma_entry_in_map(entries: Seq<(u32, AttribBinding)>, i: int)
    requires
        distinct_slots(entries),
        0 <= i < entries.len(),
    ensures
        entries_map(entries).contains_key(entries[i].0),
        entries_map(entries)[entries[i].0] == entries[i].1,
{
    let slot = entries[i].0;
    assert(has_slot(entries, slot));
    let k = slot_index(entries, slot);
    assert(k == i) by {
        if k < i {
            assert(entries[k].0 != entries[i].0);
        } else if i < k {
            assert(entries[i].0 != entries[k].0);
        }
    }
}

/// Appending an entry for a new slot inserts it into the mapping.
pub proof fn lemma_push_entry(entries: Seq<(u32, AttribBinding)>, slot: u32, binding: AttribBinding)
    requires
        distinct_slots(entries),
        !has_slot(entries, slot),
    ensures
        distinct_slots(entries.push((slot, binding))),
        entries_map(entries.push((slot, binding))) == entries_map(entries).insert(slot, binding),
{
    let after = entries.push((slot, binding));
    assert forall|i: int, j: int| 0 <= i < j < after.len() implies (#[trigger] after[i]).0 != (
    #[trigger] after[j]).0 by {
        if j < entries.len() {
            assert(entries[i].0 != entries[j].0);
        } else {
            assert(entries[i].0 != slot);
        }
    }
    assert forall|s: u32| has_slot(after, s) <==> (s == slot || has_slot(entries, s)) by {
        if has_slot(after, s) {
            let k = slot_index(after, s);
            if k < entries.len() {
                assert(entries[k].0 == s);
            }
        }
        if s == slot {
            assert(after[entries.len() as int].0 == s);
        }
        if has_slot(entries, s) {
            let k = slot_index(entries, s);
            assert(after[k].0 == s);
        }
    }
    assert forall|s: u32| has_slot(after, s) implies #[trigger] entries_map(after)[s]
        == entries_map(entries).insert(slot, binding)[s] by {
        let k = slot_index(after, s);
        lemma_entry_in_map(after, k);
        if k < entries.len() {
            lemma_entry_in_map(entries, k);
        }
    }
    assert(entries_map(after) =~= entries_map(entries).insert(slot, binding));
}

/// Replacing the binding of an entry replaces it in the mapping.
pub proof fn lemma_update_entry(entries: Seq<(u32, AttribBinding)>, i: int, binding: AttribBinding)
    requires
        distinct_slots(entries),
        0 <= i < entries.len(),
    ensures
        distinct_slots(entries.update(i, (entries[i].0, binding))),
        entries_map(entries.update(i, (entries[i].0, binding))) == entries_map(entries).insert(
            entries[i].0,
            binding,
        ),
{
    let slot = entries[i].0;
    let after = entries.update(i, (slot, binding));
    assert forall|a: int, b: int| 0 <= a < b < after.len() implies (#[trigger] after[a]).0 != (
    #[trigger] after[b]).0 by {
        assert(entries[a].0 != entries[b].0);
    }
    assert forall|s: u32| has_slot(after, s) <==> has_slot(entries, s) by {
        if has_slot(after, s) {
            let k = slot_index(after, s);
            assert(entries[k].0 == s);
        }
        if has_slot(entries, s) {
            let k = slot_index(entries, s);
            assert(after[k].0 == s);
        }
    }
    assert(has_slot(entries, slot));
    assert forall|s: u32| has_slot(after, s) implies #[trigger] entries_map(after)[s]
        == entries_map(entries).insert(slot, binding)[s] by {
        let k = slot_index(after, s);
        lemma_entry_in_map(after, k);
        lemma_entry_in_map(entries, k);
    }
    assert(entries_map(after) =~= entries_map(entries).insert(slot, binding));
}

/// The buffers of the entries that have one, in the order of the entries.
pub open spec fn entry_buffers(entries: Seq<(u32, AttribBinding)>) -> Seq<BufferHandle>
    decreases entries.len(),
{
    if entries.len() == 0 {
        Seq::empty()
    } else {
        match entries.last().1.buffer {
            Some(buffer) => entry_buffers(entries.drop_last()).push(buffer),
            None => entry_buffers(entries.drop_last()),
        }
    }
}

/// The buffers of the entries are the buffers that some entry holds.
pub proof fn lemma_entry_buffers_are_held(entries: Seq<(u32, AttribBinding)>, b: BufferHandle)
    ensures
        entry_buffers(entries).contains(b) <==> exists|k: int|
            0 <= k < entries.len() && (#[trigger] entries[k]).1.buffer == Some(b),
    decreases entries.len(),
{
    if entries.len() > 0 {
        let rest = entries.drop_last();
        let last = entries.last();
        lemma_entry_buffers_are_held(rest, b);
        let held = entry_buffers(entries);
        let held_rest = entry_buffers(rest);
        if held.contains(b) {
            let n = choose|n: int| 0 <= n < held.len() && held[n] == b;
            if n < held_rest.len() {
                assert(held_rest[n] == b);
                assert(held_rest.contains(b));
                let k = choose|k: int|
                    0 <= k < rest.len() && (#[trigger] rest[k]).1.buffer == Some(b);
                assert(entries[k].1.buffer == Some(b));
            } else {
                assert(entries[entries.len() - 1].1.buffer == Some(b));
            }
        }
        if exists|k: int| 0 <= k < entries.len() && (#[trigger] entries[k]).1.buffer == Some(b) {
            let k = choose|k: int|
                0 <= k < entries.len() && (#[trigger] entries[k]).1.buffer == Some(b);
            if k < rest.len() {
                assert(rest[k].1.buffer == Some(b));
                assert(held_rest.contains(b));
                let n = choose|n: int| 0 <= n < held_rest.len() && held_rest[n] == b;
                assert(held[n] == b);
            } else {
                assert(last.1.buffer == Some(b));
                assert(held[held.len() - 1] == b);
            }
        }
    }
}

/// With distinct slots, the buffers of the entries are the buffers that the
/// mapping refers to.
pub proof fn lemma_entry_buffers_are_referenced(entries: Seq<(u32, AttribBinding)>)
    requires
        distinct_slots(entries),
    ensures
        forall|b: BufferHandle|
            entry_buffers(entries).contains(b) <==> references(entries_map(entries), b),
{
    let bindings = entries_map(entries);
    assert forall|b: BufferHandle|
        entry_buffers(entries).contains(b) <==> references(bindings, b) by {
        lemma_entry_buffers_are_held(entries, b);
        if entry_buffers(entries).contains(b) {
            let k = choose|k: int|
                0 <= k < entries.len() && (#[trigger] entries[k]).1.buffer == Some(b);
            lemma_entry_in_map(entries, k);
            assert(bindings.contains_key(entries[k].0));
        }
        if references(bindings, b) {
            let slot = choose|slot: u32| #[trigger]
                bindings.contains_key(slot) && bindings[slot].buffer == Some(b);
            let k = slot_index(entries, slot);
            lemma_entry_in_map(entries, k);
            assert(entries[k].1.buffer == Some(b));
        }
    }
}

/// The attribute-buffer bindings of a context or of a vertex array object: a
/// mapping from attribute slots to bindings, kept in the order in which the
/// slots were first bound.
#[derive(Debug)]
pub struct BoundAttribBuffers {
    entries: Vec<(u32, AttribBinding)>,
}

impl BoundAttribBuffers {
    /// The entries in the order in which their slots were first bound.
    pub closed spec fn entries(&self) -> Seq<(u32, AttribBinding)> {
        self.entries@
    }

    /// No slot is held twice.
    pub open spec fn wf(&self) -> bool {
        distinct_slots(self.entries())
    }

    /// The mapping from slots to bindings.
    pub open spec fn view(&self) -> Map<u32, AttribBinding> {
        entries_map(self.entries())
    }

    /// No binding at all.
    pub fn new() -> (store: Self)
        ensures
            store.wf(),
            store.entries() == Seq::<(u32, AttribBinding)>::empty(),
            store@ == Map::<u32, AttribBinding>::empty(),
    {
        let store = BoundAttribBuffers { entries: Vec::new() };
        assert(store@ =~= Map::<u32, AttribBinding>::empty());
        store
    }

    /// Whether no slot is bound.
    pub fn is_empty(&self) -> (empty: bool)
        ensures
            empty == (self@ == Map::<u32, AttribBinding>::empty()),
    {
        let empty = self.entries.len() == 0;
        proof {
            if empty {
                assert(self@ =~= Map::<u32, AttribBinding>::empty());
            } else {
                assert(has_slot(self.entries(), self.entries()[0].0));
                assert(self@.contains_key(self.entries()[0].0));
            }
        }
        empty
    }

    /// The binding of `slot`, if the slot is bound.
    pub fn get(&self, slot: u32) -> (binding: Option<AttribBinding>)
        requires
            self.wf(),
        ensures
            binding == (if self@.contains_key(slot) {
                Some(self@[slot])
            } else {
                None
            }),
    {
        let mut i: usize = 0;
        while i < self.entries.len()
            invariant
                i <= self.entries.len(),
                self.wf(),
                forall|k: int| 0 <= k < i ==> (#[trigger] self.entries()[k]).0 != slot,
            decreases self.entries.len() - i,
        {
            if self.entries[i].0 == slot {
                proof {
                    lemma_entry_in_map(self.entries(), i as int);
                }
                return Some(self.entries[i].1);
            }
            i += 1;
        }
        None
    }

    /// Binds `slot` to `binding`, in place of what the slot held.
    pub fn bind(&mut self, slot: u32, binding: AttribBinding)
        requires
            old(self).wf(),
        ensures
            final(self).wf(),
            final(self)@ == old(self)@.insert(slot, binding),
            final(self).entries() == (if has_slot(old(self).entries(), slot) {
                old(self).entries().update(slot_index(old(self).entries(), slot), (slot, binding))
            } else {
                old(self).entries().push((slot, binding))
            }),
    {
        let mut i: usize = 0;
        while i < self.entries.len()
            invariant
                i <= self.entries.len(),
                self.wf(),
                self.entries() == old(self).entries(),
                forall|k: int| 0 <= k < i ==> (#[trigger] self.entries()[k]).0 != slot,
            decreases self.entries.len() - i,
        {
            if self.entries[i].0 == slot {
                proof {
                    lemma_update_entry(self.entries(), i as int, binding);
                    lemma_entry_in_map(self.entries(), i as int);
                    let found = slot_index(self.entries(), slot);
                    if found < i {
                        assert(self.entries()[found].0 != self.entries()[i as int].0);
                    } else if i < found {
                        assert(self.entries()[i as int].0 != self.entries()[found].0);
                    }
                }
                self.entries[i] = (slot, binding);
                return ;
            }
            i += 1;
        }
        proof {
            lemma_push_entry(self.entries(), slot, binding);
        }
        self.entries.push((slot, binding));
    }

    /// Unbinds every slot.
    pub fn clear(&mut self)
        ensures
            final(self).wf(),
            final(self).entries() == Seq::<(u32, AttribBinding)>::empty(),
            final(self)@ == Map::<u32, AttribBinding>::empty(),
    {
        self.entries.clear();
        assert(self@ =~= Map::<u32, AttribBinding>::empty());
    }

    /// Makes these bindings a copy of `other`.
    pub fn set_from(&mut self, other: &BoundAttribBuffers)
        ensures
            final(self).entries() == other.entries(),
            final(self)@ == other@,
            final(self).wf() == other.wf(),
    {
        self.entries.clear();
        let mut i: usize = 0;
        while i < other.entries.len()
            invariant
                i <= other.entries.len(),
                self.entries() == other.entries().take(i as int),
            decreases other.entries.len() - i,
        {
            self.entries.push(other.entries[i]);
            i += 1;
        }
        assert(self.entries() =~= other.entries());
    }

    /// A copy of these bindings.
    pub fn duplicate(&self) -> (copy: BoundAttribBuffers)
        ensures
            copy.entries() == self.entries(),
            copy@ == self@,
            copy.wf() == self.wf(),
    {
        let mut copy = BoundAttribBuffers::new();
        copy.set_from(self);
        copy
    }

    /// The buffers that the slots hold: one place for each slot with a
    /// buffer, in the order in which the slots were first bound.
    pub fn buffers(&self) -> (held: Vec<BufferHandle>)
        ensures
            held@ == entry_buffers(self.entries()),
            self.wf() ==> forall|b: BufferHandle| held@.contains(b) <==> references(self@, b),
    {
        let mut held: Vec<BufferHandle> = Vec::new();
        let mut i: usize = 0;
        while i < self.entries.len()
            invariant
                i <= self.entries.len(),
                held@ == entry_buffers(self.entries().take(i as int)),
            decreases self.entries.len() - i,
        {
            proof {
                assert(self.entries().take(i + 1).drop_last() =~= self.entries().take(i as int));
            }
            if let Some(b) = self.entries[i].1.buffer {
                held.push(b);
            }
            i += 1;
        }
        proof {
            assert(self.entries().take(i as int) =~= self.entries());
            if self.wf() {
                lemma_entry_buffers_are_referenced(self.entries());
            }
        }
        held
    }
}

} // verus!
