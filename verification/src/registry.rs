//! The swap registry: each swap identifier gets the next slot of a counter.

use crate::errors::SwapError;
use crate::laws::law_register_then_resolve;
use crate::tables::{id_entries, slot_entries, IdTable, SlotTable, SwapId};
use vstd::prelude::*;

verus! {

/// The mathematical content of a registry.
pub struct RegistryView {
    /// The slot handed out last; 0 before the first registration.
    pub counter: u64,
    /// The slot of each registered identifier.
    pub slots: Map<Seq<u8>, u64>,
    /// The identifier that each slot was handed out for.
    pub ids: Map<u64, Seq<u8>>,
}

impl RegistryView {
    /// The invariant of a registry: the slots handed out are exactly
    /// `1..=counter`, each identifier's slot leads back to that identifier, and
    /// the tables have room for as many keys as the counter says.
    pub open spec fn wf(self) -> bool {
        &&& self.counter <= u32::MAX
        &&& self.slots.dom().finite()
        &&& self.slots.dom().len() <= self.counter
        &&& self.ids.dom().finite()
        &&& self.ids.dom().len() <= self.counter
        &&& forall|slot: u64| #[trigger]
            self.ids.dom().contains(slot) <==> 1 <= slot <= self.counter
        &&& forall|id: Seq<u8>| #[trigger]
            self.slots.dom().contains(id) ==> {
                &&& 1 <= self.slots[id] <= self.counter
                &&& self.ids[self.slots[id]] == id
            }
    }

    /// The registry after `id` has been registered: it takes the next slot. An
    /// identifier that was registered before now leads to the new slot.
    pub open spec fn register(self, id: Seq<u8>) -> RegistryView {
        let slot = (self.counter + 1) as u64;
        RegistryView {
            counter: slot,
            slots: self.slots.insert(id, slot),
            ids: self.ids.insert(slot, id),
        }
    }

    /// The slot of `id`, or `UnknownSwap`.
    pub open spec fn resolve(self, id: Seq<u8>) -> Result<u64, SwapError> {
        if self.slots.dom().contains(id) {
            Ok(self.slots[id])
        } else {
            Err(SwapError::UnknownSwap)
        }
    }
}

/// The registry of swap identifiers.
pub struct SwapRegistry {
    counter: u64,
    reverse_ids: SlotTable,
    ids: IdTable,
}

impl View for SwapRegistry {
    type V = RegistryView;

    closed spec fn view(&self) -> RegistryView {
        RegistryView {
            counter: self.counter,
            slots: slot_entries(self.reverse_ids),
            ids: id_entries(self.ids),
        }
    }
}

impl SwapRegistry {
    /// Whether the registry's invariant holds.
    pub open spec fn wf(&self) -> bool {
        self@.wf()
    }

    /// An empty registry.
    pub fn new() -> (registry: SwapRegistry)
        ensures
            registry.wf(),
            registry@.counter == 0,
            registry@.slots == Map::<Seq<u8>, u64>::empty(),
            registry@.ids == Map::<u64, Seq<u8>>::empty(),
    {
        SwapRegistry { counter: 0, reverse_ids: SlotTable::new(), ids: IdTable::new() }
    }

    /// The slot handed out last.
    pub fn counter(&self) -> (counter: u64)
        ensures
            counter == self@.counter,
    {
        self.counter
    }

    /// Registers `id` under the next slot and returns that slot.
    pub fn register(&mut self, id: SwapId) -> (slot: u64)
        requires
            old(self).wf(),
            old(self)@.counter < u32::MAX,
        ensures
            final(self).wf(),
            final(self)@ == old(self)@.register(id@),
            slot == old(self)@.counter + 1,
    {
        let slot: u64 = self.counter + 1;
        self.counter = slot;
        self.ids.insert(slot, id);
        self.reverse_ids.insert(id, slot);
        proof {
            law_register_then_resolve(old(self)@, id@);
        }
        slot
    }

    /// The slot registered for `id`, or `UnknownSwap`.
    pub fn resolve(&self, id: &SwapId) -> (slot: Result<u64, SwapError>)
        ensures
            slot == self@.resolve(id@),
    {
        match self.reverse_ids.get(id) {
            Some(slot) => Ok(slot),
            None => Err(SwapError::UnknownSwap),
        }
    }

    /// The identifier that `slot` was handed out for, if it was handed out.
    pub fn id_of(&self, slot: u64) -> (id: Option<SwapId>)
        ensures
            id.is_some() == self@.ids.dom().contains(slot),
            id matches Some(bytes) ==> bytes@ == self@.ids[slot],
    {
        self.ids.get(slot)
    }
}

} // verus!
