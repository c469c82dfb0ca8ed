//! The three storage maps of the engine, kept in `ink_storage`'s hash map.
//!
//! Each table holds one `ink_storage::collections::HashMap` and names what it
//! holds as a mathematical map. The functions here only forward to the map's
//! `new`, `insert` and `get`; what they promise is taken on trust from the
//! map's source, which counts its keys in a `u32`: a table accepts a new key
//! only while it holds fewer than `u32::MAX` of them.

use crate::record::StoredSwap;
use ink_storage::collections::HashMap as StorageHashMap;
use vstd::prelude::*;

verus! {

/// The swap identifier, chosen by the creator of a swap.
pub type SwapId = [u8; 32];

/// The table from swap identifier to slot.
#[verifier::external_body]
pub struct SlotTable {
    inner: StorageHashMap<SwapId, u64>,
}

/// The table from slot to swap identifier.
#[verifier::external_body]
pub struct IdTable {
    inner: StorageHashMap<u64, SwapId>,
}

/// The table from slot to stored swap.
#[verifier::external_body]
pub struct SwapTable {
    inner: StorageHashMap<u64, StoredSwap>,
}

/// What a slot table holds: the slot of each identifier, by the identifier's bytes.
pub uninterp spec fn slot_entries(table: SlotTable) -> Map<Seq<u8>, u64>;

/// What an identifier table holds: the identifier's bytes for each slot.
pub uninterp spec fn id_entries(table: IdTable) -> Map<u64, Seq<u8>>;

/// What a swap table holds: the stored swap of each slot.
pub uninterp spec fn swap_entries(table: SwapTable) -> Map<u64, StoredSwap>;

impl SlotTable {
    /// Calls `ink_storage::collections::HashMap::new`. Trusted: the new map holds
    /// nothing.
    #[verifier::external_body]
    pub(crate) fn new() -> (table: SlotTable)
        ensures
            slot_entries(table) =~= Map::empty(),
    {
        SlotTable { inner: StorageHashMap::new() }
    }

    /// Calls `ink_storage::collections::HashMap::insert`. Trusted: afterwards `id` maps to `slot` and every
    /// other key is as before. A new key needs room in the map's `u32` count.
    #[verifier::external_body]
    pub(crate) fn insert(&mut self, id: SwapId, slot: u64)
        requires
            slot_entries(*old(self)).dom().finite(),
            slot_entries(*old(self)).dom().len() < u32::MAX,
        ensures
            slot_entries(*final(self)) == slot_entries(*old(self)).insert(id@, slot),
    {
        self.inner.insert(id, slot);
    }

    /// Calls `ink_storage::collections::HashMap::get`. Trusted: it returns the slot held for `id`, if any.
    #[verifier::external_body]
    pub(crate) fn get(&self, id: &SwapId) -> (slot: Option<u64>)
        ensures
            slot == slot_entries(*self).get(id@),
    {
        self.inner.get(id).copied()
    }
}

impl IdTable {
    /// Calls `ink_storage::collections::HashMap::new`. Trusted: the new map holds
    /// nothing.
    #[verifier::external_body]
    pub(crate) fn new() -> (table: IdTable)
        ensures
            id_entries(table) =~= Map::empty(),
    {
        IdTable { inner: StorageHashMap::new() }
    }

    /// Calls `ink_storage::collections::HashMap::insert`. Trusted: afterwards `slot` maps to `id` and every
    /// other key is as before. A new key needs room in the map's `u32` count.
    #[verifier::external_body]
    pub(crate) fn insert(&mut self, slot: u64, id: SwapId)
        requires
            id_entries(*old(self)).dom().finite(),
            id_entries(*old(self)).dom().len() < u32::MAX,
        ensures
            id_entries(*final(self)) == id_entries(*old(self)).insert(slot, id@),
    {
        self.inner.insert(slot, id);
    }

    /// Calls `ink_storage::collections::HashMap::get`. Trusted: it returns the identifier held for `slot`,
    /// if any.
    #[verifier::external_body]
    pub(crate) fn get(&self, slot: u64) -> (id: Option<SwapId>)
        ensures
            id.is_some() == id_entries(*self).dom().contains(slot),
            id matches Some(bytes) ==> bytes@ == id_entries(*self)[slot],
    {
        self.inner.get(&slot).copied()
    }
}

impl SwapTable {
    /// Calls `ink_storage::collections::HashMap::new`. Trusted: the new map holds
    /// nothing.
    #[verifier::external_body]
    pub(crate) fn new() -> (table: SwapTable)
        ensures
            swap_entries(table) =~= Map::empty(),
    {
        SwapTable { inner: StorageHashMap::new() }
    }

    /// Calls `ink_storage::collections::HashMap::insert`. Trusted: afterwards `slot` maps to `swap` and
    /// every other key is as before. A new key needs room in the map's `u32`
    /// count; replacing the value of a key that is present always has room.
    #[verifier::external_body]
    pub(crate) fn insert(&mut self, slot: u64, swap: StoredSwap)
        requires
            swap_entries(*old(self)).dom().finite(),
            swap_entries(*old(self)).dom().contains(slot) || swap_entries(*old(self)).dom().len()
                < u32::MAX,
        ensures
            swap_entries(*final(self)) == swap_entries(*old(self)).insert(slot, swap),
    {
        self.inner.insert(slot, swap);
    }

    /// Calls `ink_storage::collections::HashMap::get`. Trusted: it returns the swap held for `slot`, if any.
    #[verifier::external_body]
    pub(crate) fn get(&self, slot: u64) -> (swap: Option<StoredSwap>)
        ensures
            swap == swap_entries(*self).get(slot),
    {
        self.inner.get(&slot).copied()
    }
}

} // verus!
