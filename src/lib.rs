//! Per-slot metadata of an erasure-coded block store: which fragments
//! ("shreds") of a slot have arrived, whether a slot is complete, and
//! whether an erasure-coded set can be recovered from what has arrived.
pub mod erasure;
pub mod records;
pub mod shred_index;
pub mod slot_meta;

pub use erasure::{ErasureConfig, ErasureMeta, ErasureMetaStatus, Shred, ShredType};
pub use records::{
    AddressSignatureMeta, DuplicateSlotProof, FrozenHashStatus, FrozenHashVersioned, PerfSample,
    ProgramCost, TransactionStatusIndexMeta,
};
pub use shred_index::{Index, PositionBound, ShredIndex};
pub use slot_meta::SlotMeta;
