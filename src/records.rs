//! Smaller per-slot records: evidence of duplicate shreds, the frozen bank
//! hash, and bookkeeping of other stores.
use solana_sdk::clock::Slot;
use vstd::prelude::*;

verus! {

/// Relies on `solana_sdk::hash::Hash` (a `Copy` 32-byte digest) only to be
/// stored and copied: nothing here reads inside it.
#[verifier::external_type_specification]
#[verifier::external_body]
pub struct ExHash(solana_sdk::hash::Hash);

/// Two differing shreds for the same slot and index: proof that the
/// leader produced more than one version of the slot.
pub struct DuplicateSlotProof {
    pub shred1: Vec<u8>,
    pub shred2: Vec<u8>,
}

impl DuplicateSlotProof {
    pub fn new(shred1: Vec<u8>, shred2: Vec<u8>) -> (r: DuplicateSlotProof)
        ensures
            r.shred1@ == shred1@,
            r.shred2@ == shred2@,
    {
        DuplicateSlotProof { shred1, shred2 }
    }
}

/// The hash of a replayed slot and whether it was confirmed as duplicate.
#[derive(Debug, PartialEq)]
pub struct FrozenHashStatus {
    pub frozen_hash: solana_sdk::hash::Hash,
    pub is_duplicate_confirmed: bool,
}

/// The stored form of a frozen slot's status, one variant per format.
#[derive(Debug, PartialEq)]
pub enum FrozenHashVersioned {
    Current(FrozenHashStatus),
}

impl FrozenHashVersioned {
    /// The status that the record holds, whatever its format.
    pub open spec fn status(&self) -> &FrozenHashStatus {
        match self {
            FrozenHashVersioned::Current(s) => s,
        }
    }

    pub fn frozen_hash(&self) -> (r: solana_sdk::hash::Hash)
        ensures
            r == self.status().frozen_hash,
    {
        match self {
            FrozenHashVersioned::Current(frozen_hash_status) => frozen_hash_status.frozen_hash,
        }
    }

    pub fn is_duplicate_confirmed(&self) -> (r: bool)
        ensures
            r == self.status().is_duplicate_confirmed,
    {
        match self {
            FrozenHashVersioned::Current(frozen_hash_status) => {
                frozen_hash_status.is_duplicate_confirmed
            },
        }
    }
}

/// Bookkeeping of one transaction-status store.
#[derive(Debug, Default, PartialEq)]
pub struct TransactionStatusIndexMeta {
    pub max_slot: Slot,
    pub frozen: bool,
}

/// Whether an address was writable in a transaction it signed.
#[derive(Debug, Default, PartialEq)]
pub struct AddressSignatureMeta {
    pub writeable: bool,
}

/// Transactions and slots processed during one sampling period.
#[derive(Clone, Debug, Default, PartialEq)]
pub struct PerfSample {
    pub num_transactions: u64,
    pub num_slots: u64,
    pub sample_period_secs: u16,
}

/// Execution cost recorded for one program.
#[derive(Clone, Debug, Default, PartialEq)]
pub struct ProgramCost {
    pub cost: u64,
}

} // verus!
