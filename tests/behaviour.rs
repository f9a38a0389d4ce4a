use blockstore_meta::PositionBound::{Excluded, Included, Unbounded};
use blockstore_meta::{
    DuplicateSlotProof, ErasureConfig, ErasureMeta, ErasureMetaStatus, FrozenHashStatus,
    FrozenHashVersioned, Index, PositionBound, Shred, ShredIndex, ShredType, SlotMeta,
};

fn coding_shred(index: u32, fec_set_index: u32, num_data: u16, num_coding: u16, position: u16) -> Shred {
    Shred {
        shred_type: ShredType::Code,
        index,
        fec_set_index,
        num_data_shreds: num_data,
        num_coding_shreds: num_coding,
        position,
    }
}

#[test]
fn set_present_then_is_present() {
    let mut s = ShredIndex::new();
    assert!(!s.is_present(3));
    s.set_present(3, true);
    assert!(s.is_present(3));
    s.set_present(3, true);
    assert!(s.is_present(3));
    assert_eq!(s.num_shreds(), 1);
    s.set_present(3, false);
    assert!(!s.is_present(3));
    s.set_present(3, false);
    assert!(!s.is_present(3));
    assert_eq!(s.num_shreds(), 0);
}

#[test]
fn set_many_present_applies_in_order() {
    let mut s = ShredIndex::new();
    s.set_many_present(&[(1, true), (2, true), (1, false), (9, true), (2, false), (2, true)]);
    assert!(!s.is_present(1));
    assert!(s.is_present(2));
    assert!(s.is_present(9));
    assert_eq!(s.num_shreds(), 2);
}

#[test]
fn present_in_bounds_counts_each_kind_of_end() {
    let mut s = ShredIndex::new();
    s.set_many_present(&[(0, true), (3, true), (4, true), (7, true), (u64::MAX, true)]);
    assert_eq!(s.present_in_bounds(Included(3), Excluded(7)), 2);
    assert_eq!(s.present_in_bounds(Included(3), Included(7)), 3);
    assert_eq!(s.present_in_bounds(Excluded(3), Included(7)), 2);
    assert_eq!(s.present_in_bounds(Unbounded, Excluded(4)), 2);
    assert_eq!(s.present_in_bounds(Included(4), Unbounded), 3);
    assert_eq!(s.present_in_bounds(Unbounded, Unbounded), 5);
    assert_eq!(s.present_in_bounds(Included(5), Excluded(5)), 0);
    assert_eq!(ShredIndex::new().present_in_bounds(Unbounded, Unbounded), 0);
}

#[test]
fn largest_is_highest_position() {
    let mut s = ShredIndex::new();
    assert_eq!(s.largest(), None);
    s.set_many_present(&[(12, true), (4, true), (40, true), (7, true)]);
    assert_eq!(s.largest(), Some(40));
    s.set_present(40, false);
    assert_eq!(s.largest(), Some(12));
}

#[test]
fn index_keeps_data_and_coding_apart() {
    let mut index = Index::new(9);
    index.data_mut().set_present(2, true);
    index.coding_mut().set_present(5, true);
    assert_eq!(index.slot, 9);
    assert!(index.data().is_present(2));
    assert!(!index.data().is_present(5));
    assert!(index.coding().is_present(5));
    assert!(!index.coding().is_present(2));
}

#[test]
fn status_still_need_counts_both_kinds() {
    let e = ErasureMeta::new(10, 30, 0, ErasureConfig::new(8, 4)).unwrap();
    let mut index = Index::new(1);
    assert_eq!(e.status(&index), ErasureMetaStatus::StillNeed(8));
    // Positions outside the set do not count.
    index.data_mut().set_many_present(&[(9, true), (18, true), (10, true), (11, true), (12, true)]);
    index.coding_mut().set_many_present(&[(29, true), (34, true), (30, true), (31, true)]);
    assert_eq!(e.status(&index), ErasureMetaStatus::StillNeed(3));
    index.coding_mut().set_many_present(&[(32, true), (33, true)]);
    assert_eq!(e.status(&index), ErasureMetaStatus::StillNeed(1));
    index.data_mut().set_present(17, true);
    assert_eq!(e.status(&index), ErasureMetaStatus::CanRecover);
}

#[test]
fn status_with_no_data_shreds_is_full() {
    let e = ErasureMeta::new(0, 0, 0, ErasureConfig::new(0, 3)).unwrap();
    assert_eq!(e.status(&Index::new(0)), ErasureMetaStatus::DataFull);
}

#[test]
fn shred_ranges_and_legacy_coding_start() {
    let e = ErasureMeta::new(64, 0, 0, ErasureConfig::new(32, 8)).unwrap();
    assert_eq!(e.data_shreds_indices(), 64..96);
    assert_eq!(e.coding_shreds_indices(), 64..72);
    let e = ErasureMeta::new(64, 100, 0, ErasureConfig::new(32, 8)).unwrap();
    assert_eq!(e.coding_shreds_indices(), 100..108);
    assert_eq!(e.config(), ErasureConfig::new(32, 8));
}

#[test]
fn new_refuses_ranges_past_largest_position() {
    assert!(ErasureMeta::new(u64::MAX - 3, 5, 0, ErasureConfig::new(4, 1)).is_none());
    assert!(ErasureMeta::new(u64::MAX - 4, 5, 0, ErasureConfig::new(4, 1)).is_some());
    assert!(ErasureMeta::new(5, u64::MAX, 0, ErasureConfig::new(4, 1)).is_none());
    assert!(ErasureMeta::new(u64::MAX - 4, 0, 0, ErasureConfig::new(4, 5)).is_none());
}

#[test]
fn from_coding_shred_reads_header() {
    let data = Shred { shred_type: ShredType::Data, ..coding_shred(3, 0, 4, 4, 0) };
    assert!(ErasureMeta::from_coding_shred(&data).is_none());
    assert!(ErasureMeta::from_coding_shred(&coding_shred(2, 0, 4, 4, 3)).is_none());

    let e = ErasureMeta::from_coding_shred(&coding_shred(23, 16, 5, 7, 3)).unwrap();
    assert_eq!(e, ErasureMeta::new(16, 20, 0, ErasureConfig::new(5, 7)).unwrap());
    assert_eq!(e.data_shreds_indices(), 16..21);
    assert_eq!(e.coding_shreds_indices(), 20..27);
}

#[test]
fn first_coding_index_subtracts_rank() {
    assert_eq!(coding_shred(23, 16, 5, 7, 3).first_coding_index(), Some(20));
    assert_eq!(coding_shred(3, 0, 5, 7, 3).first_coding_index(), Some(0));
    assert_eq!(coding_shred(2, 0, 5, 7, 3).first_coding_index(), None);
}

#[test]
fn check_coding_shred_ignores_first_coding_index() {
    let legacy = ErasureMeta::new(16, 0, 0, ErasureConfig::new(5, 7)).unwrap();
    assert!(legacy.check_coding_shred(&coding_shred(23, 16, 5, 7, 3)));
    assert!(legacy.check_coding_shred(&coding_shred(40, 16, 5, 7, 0)));
    assert!(!legacy.check_coding_shred(&coding_shred(23, 17, 5, 7, 3)));
    assert!(!legacy.check_coding_shred(&coding_shred(23, 16, 6, 7, 3)));
    assert!(!legacy.check_coding_shred(&coding_shred(23, 16, 5, 8, 3)));
    assert!(!legacy.check_coding_shred(&coding_shred(2, 16, 5, 7, 3)));
    let data = Shred { shred_type: ShredType::Data, ..coding_shred(23, 16, 5, 7, 3) };
    assert!(!legacy.check_coding_shred(&data));
}

#[test]
fn is_full_follows_last_index() {
    let mut m = SlotMeta::new_orphan(4);
    assert!(!m.is_full());
    m.last_index = 9;
    m.consumed = 10;
    assert!(m.is_full());
    m.consumed = 11;
    assert!(!m.is_full());
    m.consumed = 9;
    assert!(!m.is_full());
    m.last_index = u64::MAX;
    m.consumed = 0;
    assert!(!m.is_full());
}

#[test]
fn known_last_index_and_parent() {
    let mut m = SlotMeta::new_orphan(4);
    assert_eq!(m.known_last_index(), None);
    assert!(!m.is_parent_set());
    m.last_index = 0;
    assert_eq!(m.known_last_index(), Some(0));
    m.last_index = u64::MAX - 1;
    assert_eq!(m.known_last_index(), Some(u64::MAX - 1));
    let m = SlotMeta::new(4, 3);
    assert!(m.is_parent_set());
    assert_eq!(m.parent_slot, 3);
}

#[test]
fn new_slot_meta_fields() {
    let root = SlotMeta::new(0, u64::MAX);
    assert!(root.is_connected);
    let m = SlotMeta::new(8, 7);
    assert!(!m.is_connected);
    assert_eq!(m.slot, 8);
    assert_eq!(m.consumed, 0);
    assert_eq!(m.received, 0);
    assert_eq!(m.first_shred_timestamp, 0);
    assert_eq!(m.last_index, u64::MAX);
    assert!(m.next_slots.is_empty());
    assert!(m.completed_data_indexes.is_empty());
}

#[test]
fn clear_unconfirmed_slot_keeps_only_links() {
    let mut m = SlotMeta::new(3, 2);
    m.consumed = 8;
    m.received = 12;
    m.first_shred_timestamp = 77;
    m.last_index = 11;
    m.is_connected = true;
    m.next_slots = vec![9, 4];
    m.completed_data_indexes.insert(5);
    m.clear_unconfirmed_slot();
    let mut expected = SlotMeta::new_orphan(3);
    expected.next_slots = vec![9, 4];
    assert_eq!(m, expected);
}

#[test]
fn frozen_hash_accessors() {
    let hash = solana_sdk::hash::Hash::new_from_array([7u8; 32]);
    let record = FrozenHashVersioned::Current(FrozenHashStatus {
        frozen_hash: hash,
        is_duplicate_confirmed: true,
    });
    assert_eq!(record.frozen_hash(), hash);
    assert!(record.is_duplicate_confirmed());
}

#[test]
fn duplicate_slot_proof_keeps_payloads() {
    let proof = DuplicateSlotProof::new(vec![1, 2, 3], vec![1, 2, 4]);
    assert_eq!(proof.shred1, vec![1, 2, 3]);
    assert_eq!(proof.shred2, vec![1, 2, 4]);
}

#[test]
fn positions_lists_each_present_once() {
    let mut s = ShredIndex::new();
    assert!(s.positions().is_empty());
    s.set_many_present(&[(8, true), (3, true), (8, true), (5, true), (3, false)]);
    assert_eq!(s.positions(), vec![5, 8]);
}

#[test]
fn erasure_meta_getters() {
    let e = ErasureMeta::new(16, 0, 4096, ErasureConfig::new(5, 7)).unwrap();
    assert_eq!(e.set_index(), 16);
    assert_eq!(e.first_coding_index(), 0);
    assert_eq!(e.unused_size(), 4096);
    let from_shred = ErasureMeta::from_coding_shred(&coding_shred(23, 16, 5, 7, 3)).unwrap();
    assert_eq!(from_shred.unused_size(), 0);
    assert_eq!(from_shred.first_coding_index(), 20);
    assert!(e.check_coding_shred(&coding_shred(23, 16, 5, 7, 3)));
}
