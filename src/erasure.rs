//! Erasure-coded (FEC) sets of a slot: their shape, the shred positions
//! they span, and whether their data can be had from what has arrived.
use crate::shred_index::{
    lemma_position_range_len, position_range, present_within, Index, PositionBound,
};
use std::ops::Range;
use vstd::prelude::*;

verus! {

/// Whether a shred carries block data or erasure coding (parity).
#[derive(Clone, Copy, Debug, PartialEq, Eq, Structural)]
pub enum ShredType {
    Data,
    Code,
}

/// The header fields of a received shred that erasure bookkeeping reads.
#[derive(Clone, Copy, Debug, PartialEq, Eq, Structural)]
pub struct Shred {
    pub shred_type: ShredType,
    /// Position of the shred within its slot.
    pub index: u32,
    /// Position of the first data shred of the shred's FEC set.
    pub fec_set_index: u32,
    /// Number of data shreds of the FEC set (coding shreds only).
    pub num_data_shreds: u16,
    /// Number of coding shreds of the FEC set (coding shreds only).
    pub num_coding_shreds: u16,
    /// Rank of a coding shred among the coding shreds of its set.
    pub position: u16,
}

impl Shred {
    pub fn shred_type(&self) -> (r: ShredType)
        ensures
            r == self.shred_type,
    {
        self.shred_type
    }

    pub fn index(&self) -> (r: u32)
        ensures
            r == self.index,
    {
        self.index
    }

    pub fn fec_set_index(&self) -> (r: u32)
        ensures
            r == self.fec_set_index,
    {
        self.fec_set_index
    }

    /// Position of the first coding shred of the set, derived from a
    /// coding shred's own position and rank; none if the rank exceeds it.
    pub fn first_coding_index(&self) -> (r: Option<u32>)
        ensures
            r == (if self.index >= self.position {
                Some((self.index - self.position) as u32)
            } else {
                None::<u32>
            }),
    {
        self.index.checked_sub(self.position as u32)
    }
}

/// Shape of an FEC set: how many data and how many coding shreds it holds.
#[derive(Clone, Copy, Debug, PartialEq, Eq, Structural)]
pub struct ErasureConfig {
    pub num_data: usize,
    pub num_coding: usize,
}

impl ErasureConfig {
    pub fn new(num_data: usize, num_coding: usize) -> (r: ErasureConfig)
        ensures
            r.num_data == num_data,
            r.num_coding == num_coding,
    {
        ErasureConfig { num_data, num_coding }
    }

    pub fn num_data(&self) -> (r: usize)
        ensures
            r == self.num_data,
    {
        self.num_data
    }

    pub fn num_coding(&self) -> (r: usize)
        ensures
            r == self.num_coding,
    {
        self.num_coding
    }
}

/// Whether the data of an FEC set is complete, can be reconstructed, or
/// how many more shreds of either kind it needs first.
#[derive(Clone, Copy, Debug, PartialEq, Eq, Structural)]
pub enum ErasureMetaStatus {
    CanRecover,
    DataFull,
    StillNeed(usize),
}

/// The status of a set of `num_data` data shreds of which `data_present`
/// data shreds and `coding_present` coding shreds have arrived.
pub open spec fn status_of(num_data: nat, data_present: nat, coding_present: nat) -> ErasureMetaStatus {
    if data_present >= num_data {
        ErasureMetaStatus::DataFull
    } else if data_present + coding_present >= num_data {
        ErasureMetaStatus::CanRecover
    } else {
        ErasureMetaStatus::StillNeed((num_data - data_present - coding_present) as usize)
    }
}

/// The shape that a coding shred's header gives its set.
pub open spec fn config_of(shred: &Shred) -> ErasureConfig {
    ErasureConfig { num_data: shred.num_data_shreds as usize, num_coding: shred.num_coding_shreds as usize }
}

/// Erasure coding information of one FEC set of a slot.
#[derive(Clone, Copy, Debug, PartialEq, Eq, Structural)]
pub struct ErasureMeta {
    /// Which erasure set in the slot this is: its first data position.
    set_index: u64,
    /// First coding position of the set; 0 in records that predate the field.
    first_coding_index: u64,
    /// Shard size of records that held one; no longer read.
    __unused_size: usize,
    /// Shape of the set.
    config: ErasureConfig,
}

/// Both position ranges of a set with this start, coding start and shape
/// fit in `u64`.
pub open spec fn ranges_fit(set_index: u64, first_coding_index: u64, config: ErasureConfig) -> bool {
    let coding_start = if first_coding_index == 0 { set_index } else { first_coding_index };
    &&& set_index + config.num_data <= u64::MAX
    &&& coding_start + config.num_coding <= u64::MAX
}

impl ErasureMeta {
    #[verifier::type_invariant]
    spec fn inv(self) -> bool {
        ranges_fit(self.set_index, self.first_coding_index, self.config)
    }

    pub closed spec fn spec_set_index(self) -> u64 {
        self.set_index
    }

    pub closed spec fn spec_first_coding_index(self) -> u64 {
        self.first_coding_index
    }

    pub closed spec fn spec_config(self) -> ErasureConfig {
        self.config
    }

    pub closed spec fn spec_unused_size(self) -> usize {
        self.__unused_size
    }

    /// Both position ranges of the set fit in `u64`; every record holds it.
    pub open spec fn wf(self) -> bool {
        ranges_fit(self.spec_set_index(), self.spec_first_coding_index(), self.spec_config())
    }

    /// Start of the coding range: the stored first coding position, or the
    /// set index where the record left it unset (0).
    pub open spec fn coding_start(self) -> u64 {
        if self.spec_first_coding_index() == 0 {
            self.spec_set_index()
        } else {
            self.spec_first_coding_index()
        }
    }

    /// End (exclusive) of the data range.
    pub open spec fn data_end(self) -> u64 {
        (self.spec_set_index() + self.spec_config().num_data) as u64
    }

    /// End (exclusive) of the coding range.
    pub open spec fn coding_end(self) -> u64 {
        (self.coding_start() + self.spec_config().num_coding) as u64
    }

    /// Number of data shreds of this set present in `index`.
    pub open spec fn data_present(self, index: &Index) -> nat {
        present_within(
            index.data@,
            PositionBound::Included(self.spec_set_index()),
            PositionBound::Excluded(self.data_end()),
        ).len()
    }

    /// Number of coding shreds of this set present in `index`.
    pub open spec fn coding_present(self, index: &Index) -> nat {
        present_within(
            index.coding@,
            PositionBound::Included(self.coding_start()),
            PositionBound::Excluded(self.coding_end()),
        ).len()
    }

    /// The status of this set given the shreds present in `index`.
    pub open spec fn spec_status(self, index: &Index) -> ErasureMetaStatus {
        status_of(
            self.spec_config().num_data as nat,
            self.data_present(index),
            self.coding_present(index),
        )
    }

    /// A set record from its stored fields; none where one of its position
    /// ranges would run past the largest position.
    pub fn new(set_index: u64, first_coding_index: u64, size: usize, config: ErasureConfig) -> (r:
        Option<ErasureMeta>)
        ensures
            r is Some <==> ranges_fit(set_index, first_coding_index, config),
            r matches Some(e) ==> e.spec_set_index() == set_index && e.spec_first_coding_index()
                == first_coding_index && e.spec_unused_size() == size && e.spec_config() == config
                && e.wf(),
    {
        let coding_start = if first_coding_index == 0 {
            set_index
        } else {
            first_coding_index
        };
        if config.num_data as u64 > u64::MAX - set_index || config.num_coding as u64 > u64::MAX
            - coding_start {
            None
        } else {
            Some(ErasureMeta { set_index, first_coding_index, __unused_size: size, config })
        }
    }

    /// The set record that a coding shred describes; none for a data shred,
    /// or for a coding shred whose rank exceeds its position.
    pub fn from_coding_shred(shred: &Shred) -> (r: Option<ErasureMeta>)
        ensures
            r is Some <==> shred.shred_type == ShredType::Code && shred.index >= shred.position,
            r matches Some(e) ==> {
                &&& e.spec_set_index() == shred.fec_set_index as u64
                &&& e.spec_first_coding_index() == (shred.index - shred.position) as u64
                &&& e.spec_config() == config_of(shred)
                &&& e.spec_unused_size() == 0
                &&& e.wf()
            },
    {
        match shred.shred_type() {
            ShredType::Data => None,
            ShredType::Code => {
                let config = ErasureConfig::new(
                    shred.num_data_shreds as usize,
                    shred.num_coding_shreds as usize,
                );
                let first_coding_index = match shred.first_coding_index() {
                    Some(i) => i as u64,
                    None => {
                        return None;
                    },
                };
                Some(
                    ErasureMeta {
                        set_index: shred.fec_set_index() as u64,
                        config,
                        first_coding_index,
                        __unused_size: 0,
                    },
                )
            },
        }
    }

    /// Whether the erasure fields of a coding shred agree with this record:
    /// same set index and shape. The first coding position is not compared,
    /// as records written before it was stored hold 0 there.
    pub fn check_coding_shred(&self, shred: &Shred) -> (r: bool)
        ensures
            r == (shred.shred_type == ShredType::Code && shred.index >= shred.position
                && shred.fec_set_index as u64 == self.spec_set_index() && config_of(shred)
                == self.spec_config()),
    {
        let other = match Self::from_coding_shred(shred) {
            Some(erasure_meta) => erasure_meta,
            None => {
                return false;
            },
        };
        other.set_index == self.set_index && other.config == self.config
    }

    pub fn set_index(&self) -> (r: u64)
        ensures
            r == self.spec_set_index(),
    {
        self.set_index
    }

    /// The stored first coding position, 0 where the record left it unset.
    pub fn first_coding_index(&self) -> (r: u64)
        ensures
            r == self.spec_first_coding_index(),
    {
        self.first_coding_index
    }

    /// The shard size that older records stored.
    pub fn unused_size(&self) -> (r: usize)
        ensures
            r == self.spec_unused_size(),
    {
        self.__unused_size
    }

    pub fn config(&self) -> (r: ErasureConfig)
        ensures
            r == self.spec_config(),
    {
        self.config
    }

    /// Data positions of the set: `set_index` onwards, one per data shred.
    pub fn data_shreds_indices(&self) -> (r: Range<u64>)
        ensures
            r.start == self.spec_set_index(),
            r.end == self.data_end(),
    {
        proof {
            use_type_invariant(self);
        }
        let num_data = self.config.num_data as u64;
        self.set_index..self.set_index + num_data
    }

    /// Coding positions of the set, from `coding_start` on, one per coding
    /// shred.
    pub fn coding_shreds_indices(&self) -> (r: Range<u64>)
        ensures
            r.start == self.coding_start(),
            r.end == self.coding_end(),
    {
        proof {
            use_type_invariant(self);
        }
        let num_coding = self.config.num_coding as u64;
        // A stored 0 is what records written before the field existed hold.
        let first_coding_index = if self.first_coding_index == 0 {
            self.set_index
        } else {
            self.first_coding_index
        };
        first_coding_index..first_coding_index + num_coding
    }

    /// Whether the set's data is complete, can be recovered, or how many
    /// more shreds it needs.
    pub fn status(&self, index: &Index) -> (r: ErasureMetaStatus)
        ensures
            r == self.spec_status(index),
    {
        let coding_range = self.coding_shreds_indices();
        let num_coding = index.coding().present_in_bounds(
            PositionBound::Included(coding_range.start),
            PositionBound::Excluded(coding_range.end),
        );
        let data_range = self.data_shreds_indices();
        let num_data = index.data().present_in_bounds(
            PositionBound::Included(data_range.start),
            PositionBound::Excluded(data_range.end),
        );
        let data_missing = self.config.num_data().saturating_sub(num_data);
        let num_needed = data_missing.saturating_sub(num_coding);
        if data_missing == 0 {
            ErasureMetaStatus::DataFull
        } else if num_needed == 0 {
            ErasureMetaStatus::CanRecover
        } else {
            ErasureMetaStatus::StillNeed(num_needed)
        }
    }
}

/// With no shred of either kind present, a set needs as many shreds as it
/// has data shreds.
pub proof fn lemma_status_nothing_present(e: ErasureMeta, index: &Index)
    requires
        index.data@ == Set::<u64>::empty(),
        index.coding@ == Set::<u64>::empty(),
        e.spec_config().num_data > 0,
    ensures
        e.spec_status(index) == ErasureMetaStatus::StillNeed(e.spec_config().num_data),
{
    assert(present_within(
        index.data@,
        PositionBound::Included(e.spec_set_index()),
        PositionBound::Excluded(e.data_end()),
    ) =~= Set::<u64>::empty());
    assert(present_within(
        index.coding@,
        PositionBound::Included(e.coding_start()),
        PositionBound::Excluded(e.coding_end()),
    ) =~= Set::<u64>::empty());
}

/// With every data position of the set present the data is full, whatever
/// coding shreds are present.
pub proof fn lemma_status_all_data_present(e: ErasureMeta, index: &Index)
    requires
        e.wf(),
        forall|p: u64| e.spec_set_index() <= p < e.data_end() ==> index.data@.contains(p),
    ensures
        e.spec_status(index) == ErasureMetaStatus::DataFull,
{
    lemma_all_present_count(index.data@, e.spec_set_index(), e.data_end());
}

/// With every data and coding position of a set that has coding shreds
/// present, taking away any one data shred leaves the set recoverable.
pub proof fn lemma_status_one_data_missing(e: ErasureMeta, before: &Index, after: &Index, x: u64)
    requires
        e.wf(),
        forall|p: u64| e.spec_set_index() <= p < e.data_end() ==> before.data@.contains(p),
        forall|p: u64| e.coding_start() <= p < e.coding_end() ==> before.coding@.contains(p),
        e.spec_config().num_coding >= 1,
        e.spec_set_index() <= x < e.data_end(),
        after.data@ == before.data@.remove(x),
        after.coding@ == before.coding@,
    ensures
        e.spec_status(after) == ErasureMetaStatus::CanRecover,
{
    let lo = e.spec_set_index();
    let hi = e.data_end();
    let data = present_within(after.data@, PositionBound::Included(lo), PositionBound::Excluded(hi));
    lemma_position_range_len(lo, hi);
    assert(data =~= position_range(lo, hi).remove(x));
    lemma_all_present_count(after.coding@, e.coding_start(), e.coding_end());
}

/// Once the data of a set is full, taking away a coding shred keeps it full.
pub proof fn lemma_status_data_full_without_coding(
    e: ErasureMeta,
    before: &Index,
    after: &Index,
    q: u64,
)
    requires
        e.spec_status(before) == ErasureMetaStatus::DataFull,
        after.data@ == before.data@,
        after.coding@ == before.coding@.remove(q),
    ensures
        e.spec_status(after) == ErasureMetaStatus::DataFull,
{
}

/// Where every position from `lo` up to `hi` is in `s`, as many are present
/// within those bounds as the range is long.
proof fn lemma_all_present_count(s: Set<u64>, lo: u64, hi: u64)
    requires
        lo <= hi,
        forall|p: u64| lo <= p < hi ==> s.contains(p),
    ensures
        present_within(s, PositionBound::Included(lo), PositionBound::Excluded(hi)).len() == hi - lo,
{
    lemma_position_range_len(lo, hi);
    assert(present_within(s, PositionBound::Included(lo), PositionBound::Excluded(hi))
        =~= position_range(lo, hi));
}

} // verus!
