//! Per-slot record: how much of the slot has arrived, whether it is
//! complete, and its links to parent and child slots.
use solana_sdk::clock::Slot;
use std::collections::BTreeSet;
use vstd::prelude::*;

verus! {

broadcast use vstd::std_specs::btree::group_btree_axioms;

/// Value of `last_index` while the slot's last shred is not known, and of
/// `parent_slot` while the parent is not known.
pub const UNKNOWN: u64 = 0xffff_ffff_ffff_ffff;

#[derive(Clone, Debug, Default, PartialEq, Eq)]
pub struct SlotMeta {
    /// The slot's number; the first slot is slot 0.
    pub slot: Slot,
    /// Number of consecutive shreds received from index 0 on.
    pub consumed: u64,
    /// One past the index of the highest shred received.
    pub received: u64,
    /// When the first shred of the slot was added.
    pub first_shred_timestamp: u64,
    /// Index of the shred flagged as the slot's last; `UNKNOWN` until then.
    pub last_index: u64,
    /// The slot this one derives from; `UNKNOWN` for an orphan.
    pub parent_slot: Slot,
    /// Slots whose blocks derive from this one.
    pub next_slots: Vec<Slot>,
    /// Whether this slot is full and every ancestor is connected.
    pub is_connected: bool,
    /// Indices of shreds that end a batch of entries.
    pub completed_data_indexes: BTreeSet<u32>,
}

impl SlotMeta {
    /// `self` is a newly made record of `slot` with parent `parent_slot`,
    /// apart from its child links.
    pub open spec fn is_fresh_but_links(&self, slot: Slot, parent_slot: Slot) -> bool {
        &&& self.slot == slot
        &&& self.consumed == 0
        &&& self.received == 0
        &&& self.first_shred_timestamp == 0
        &&& self.last_index == UNKNOWN
        &&& self.parent_slot == parent_slot
        &&& self.is_connected == (slot == 0)
        &&& self.completed_data_indexes@ == Set::<u32>::empty()
    }

    /// `self` is a newly made record of `slot` with parent `parent_slot`.
    pub open spec fn is_fresh(&self, slot: Slot, parent_slot: Slot) -> bool {
        &&& self.is_fresh_but_links(slot, parent_slot)
        &&& self.next_slots@ == Seq::<Slot>::empty()
    }

    /// Every shred of the slot, up to the one flagged last, has arrived.
    pub open spec fn spec_is_full(&self) -> bool {
        self.last_index != UNKNOWN && self.consumed == self.last_index + 1
    }

    /// A record of `slot` with nothing received yet.
    pub fn new(slot: Slot, parent_slot: Slot) -> (r: SlotMeta)
        ensures
            r.is_fresh(slot, parent_slot),
    {
        SlotMeta {
            slot,
            consumed: 0,
            received: 0,
            first_shred_timestamp: 0,
            last_index: UNKNOWN,
            parent_slot,
            next_slots: Vec::new(),
            is_connected: slot == 0,
            completed_data_indexes: BTreeSet::new(),
        }
    }

    /// A record of `slot` whose parent is not known yet.
    pub fn new_orphan(slot: Slot) -> (r: SlotMeta)
        ensures
            r.is_fresh(slot, UNKNOWN),
    {
        Self::new(slot, UNKNOWN)
    }

    /// Whether every shred of the slot has arrived. A record that counts
    /// more consecutive shreds than the slot has is not full.
    pub fn is_full(&self) -> (r: bool)
        ensures
            r == self.spec_is_full(),
    {
        // A full slot with zero shreds is not possible.
        if self.last_index == UNKNOWN {
            return false;
        }
        self.consumed == self.last_index + 1
    }

    /// Index of the slot's last shred, once known.
    pub fn known_last_index(&self) -> (r: Option<u64>)
        ensures
            r == (if self.last_index == UNKNOWN {
                None::<u64>
            } else {
                Some(self.last_index)
            }),
    {
        if self.last_index == UNKNOWN {
            None
        } else {
            Some(self.last_index)
        }
    }

    pub fn is_parent_set(&self) -> (r: bool)
        ensures
            r == (self.parent_slot != UNKNOWN),
    {
        self.parent_slot != UNKNOWN
    }

    /// Resets the record to a new orphan of the same slot that keeps the
    /// links to its child slots.
    pub fn clear_unconfirmed_slot(&mut self)
        ensures
            final(self).is_fresh_but_links(old(self).slot, UNKNOWN),
            final(self).next_slots@ == old(self).next_slots@,
    {
        let mut new_self = SlotMeta::new_orphan(self.slot);
        std::mem::swap(&mut new_self.next_slots, &mut self.next_slots);
        *self = new_self;
    }
}

/// A new record is never full; once the last index is known to be `k`, the
/// slot is full exactly when `k + 1` consecutive shreds have arrived, so a
/// count past that is not full either.
pub proof fn lemma_full_once_last_index_reached(m: SlotMeta, k: u64)
    requires
        k != UNKNOWN,
    ensures
        m.is_fresh_but_links(m.slot, m.parent_slot) ==> !m.spec_is_full(),
        m.last_index == k ==> (m.spec_is_full() <==> m.consumed == k + 1),
        m.last_index == k && m.consumed == k + 2 ==> !m.spec_is_full(),
{
}

} // verus!
