//! Presence sets of shred positions, one for data and one for coding
//! shreds of a slot.
use solana_sdk::clock::Slot;
use std::collections::BTreeSet;
use vstd::prelude::*;
use vstd::std_specs::iter::IteratorSpec;

verus! {

broadcast use vstd::std_specs::btree::group_btree_axioms;

/// One end of a range of shred positions.
#[derive(Clone, Copy, Debug, PartialEq, Eq)]
pub enum PositionBound {
    Included(u64),
    Excluded(u64),
    Unbounded,
}

/// Whether `p` lies within the range given by its two ends.
pub open spec fn in_bounds(start: PositionBound, end: PositionBound, p: u64) -> bool {
    &&& match start {
        PositionBound::Included(s) => s <= p,
        PositionBound::Excluded(s) => s < p,
        PositionBound::Unbounded => true,
    }
    &&& match end {
        PositionBound::Included(e) => p <= e,
        PositionBound::Excluded(e) => p < e,
        PositionBound::Unbounded => true,
    }
}

/// The positions of `s` that lie within the range given by its two ends.
pub open spec fn present_within(s: Set<u64>, start: PositionBound, end: PositionBound) -> Set<u64> {
    s.filter(|p: u64| in_bounds(start, end, p))
}

/// The set after marking `p` present (`presence`) or absent.
pub open spec fn with_presence(s: Set<u64>, p: u64, presence: bool) -> Set<u64> {
    if presence {
        s.insert(p)
    } else {
        s.remove(p)
    }
}

/// The set after applying each (position, presence) pair in order.
pub open spec fn with_many_presence(s: Set<u64>, ps: Seq<(u64, bool)>) -> Set<u64>
    decreases ps.len(),
{
    if ps.len() == 0 {
        s
    } else {
        let (p, b) = ps.last();
        with_presence(with_many_presence(s, ps.drop_last()), p, b)
    }
}

/// Marking a position present makes it present, marking it absent makes it
/// absent, and marking it the same way twice is the same as marking it once.
pub proof fn lemma_set_present_then_is_present(s: Set<u64>, p: u64, presence: bool)
    ensures
        with_presence(s, p, true).contains(p),
        !with_presence(s, p, false).contains(p),
        with_presence(with_presence(s, p, presence), p, presence) == with_presence(s, p, presence),
{
    if presence {
        assert(s.insert(p).insert(p) =~= s.insert(p));
    } else {
        assert(s.remove(p).remove(p) =~= s.remove(p));
    }
}

/// The positions from `lo` up to, not including, `hi`.
pub open spec fn position_range(lo: u64, hi: u64) -> Set<u64> {
    Set::new(|p: u64| lo <= p < hi)
}

/// A range of positions holds as many positions as its length.
pub proof fn lemma_position_range_len(lo: u64, hi: u64)
    requires
        lo <= hi,
    ensures
        position_range(lo, hi).finite(),
        position_range(lo, hi).len() == hi - lo,
    decreases hi - lo,
{
    if lo == hi {
        assert(position_range(lo, hi) =~= Set::<u64>::empty());
    } else {
        let h = (hi - 1) as u64;
        lemma_position_range_len(lo, h);
        assert(position_range(lo, hi) =~= position_range(lo, h).insert(h));
    }
}

/// Record of which shred positions of one kind are present in a slot.
#[derive(Clone, Debug, Default, PartialEq)]
pub struct ShredIndex {
    index: BTreeSet<u64>,
}

impl View for ShredIndex {
    type V = Set<u64>;

    closed spec fn view(&self) -> Set<u64> {
        self.index@
    }
}

impl ShredIndex {
    /// An index with no shred present.
    pub fn new() -> (r: ShredIndex)
        ensures
            r@ == Set::<u64>::empty(),
    {
        ShredIndex { index: BTreeSet::new() }
    }

    pub fn num_shreds(&self) -> (r: usize)
        ensures
            r == self@.len(),
    {
        self.index.len()
    }

    pub fn is_present(&self, index: u64) -> (r: bool)
        ensures
            r == self@.contains(index),
    {
        self.index.contains(&index)
    }

    pub fn set_present(&mut self, index: u64, presence: bool)
        ensures
            final(self)@ == with_presence(old(self)@, index, presence),
    {
        if presence {
            self.index.insert(index);
        } else {
            self.index.remove(&index);
        }
    }
}

/// Executable form of `in_bounds`.
fn in_bounds_exec(start: PositionBound, end: PositionBound, p: u64) -> (r: bool)
    ensures
        r == in_bounds(start, end, p),
{
    let above = match start {
        PositionBound::Included(s) => s <= p,
        PositionBound::Excluded(s) => s < p,
        PositionBound::Unbounded => true,
    };
    let below = match end {
        PositionBound::Included(e) => p <= e,
        PositionBound::Excluded(e) => p < e,
        PositionBound::Unbounded => true,
    };
    above && below
}

/// Filtering a sequence without duplicates keeps as many elements as
/// filtering the set of its elements.
proof fn lemma_filter_len_to_set(s: Seq<u64>, f: spec_fn(u64) -> bool)
    requires
        s.no_duplicates(),
    ensures
        s.to_set().filter(f).finite(),
        s.filter(f).len() == s.to_set().filter(f).len(),
    decreases s.len(),
{
    if s.len() == 0 {
        assert(s.to_set().filter(f) =~= Set::<u64>::empty());
        assert(s.filter(f) =~= Seq::<u64>::empty());
    } else {
        let rest = s.drop_last();
        let x = s.last();
        assert(rest.no_duplicates());
        lemma_filter_len_to_set(rest, f);
        assert(s =~= rest.push(x));
        rest.lemma_filter_push(x, f);
        assert(s.to_set() =~= rest.to_set().insert(x));
        assert(!rest.contains(x)) by {
            if rest.contains(x) {
                let i = choose|i: int| 0 <= i < rest.len() && rest[i] == x;
                assert(s[i] == s[s.len() - 1]);
            }
        }
        if f(x) {
            assert(s.to_set().filter(f) =~= rest.to_set().filter(f).insert(x));
        } else {
            assert(s.to_set().filter(f) =~= rest.to_set().filter(f));
        }
    }
}

impl ShredIndex {
    /// Number of present positions within the range given by its two ends.
    pub fn present_in_bounds(&self, start: PositionBound, end: PositionBound) -> (r: usize)
        ensures
            r == present_within(self@, start, end).len(),
    {
        let ghost f = |q: u64| in_bounds(start, end, q);
        let ghost keys = vstd::std_specs::btree::spec_btree_keys_iter(&self.index).remaining().unref();
        let ghost mut seen: int = 0;
        let total = self.index.len();
        let mut count: usize = 0;
        for p in it: self.index.iter()
            invariant
                keys == vstd::std_specs::btree::spec_btree_keys_iter(&self.index).remaining().unref(),
                it.seq().unref() == keys,
                seen == it.index(),
                f == (|q: u64| in_bounds(start, end, q)),
                count == keys.take(seen).filter(f).len(),
                count <= seen,
                seen <= keys.len(),
                keys.len() == total,
        {
            proof {
                assert(keys[seen] == *p);
                assert(keys.take(seen + 1) =~= keys.take(seen).push(*p));
                keys.take(seen).lemma_filter_push(*p, f);
                seen = seen + 1;
            }
            if in_bounds_exec(start, end, *p) {
                count = count + 1;
            }
        }
        proof {
            assert(keys.take(seen) =~= keys);
            lemma_filter_len_to_set(keys, f);
            assert(present_within(self@, start, end) =~= keys.to_set().filter(f));
        }
        count
    }

    /// The highest present position, if any.
    pub fn largest(&self) -> (r: Option<u64>)
        ensures
            r is None <==> self@.is_empty(),
            r matches Some(m) ==> self@.contains(m) && forall|p: u64| self@.contains(p) ==> p <= m,
    {
        let ghost keys = vstd::std_specs::btree::spec_btree_keys_iter(&self.index).remaining().unref();
        let ghost mut seen: int = 0;
        let mut best: Option<u64> = None;
        for p in it: self.index.iter()
            invariant
                keys == vstd::std_specs::btree::spec_btree_keys_iter(&self.index).remaining().unref(),
                it.seq().unref() == keys,
                seen == it.index(),
                best is None <==> seen == 0,
                best matches Some(m) ==> keys.take(seen).contains(m) && forall|j: int|
                    0 <= j < seen ==> keys[j] <= m,
        {
            proof {
                assert(keys[seen] == *p);
            }
            let next = match best {
                Some(m) => if m < *p { *p } else { m },
                None => *p,
            };
            best = Some(next);
            proof {
                assert(keys.take(seen + 1)[seen] == *p);
                assert(keys.take(seen).contains(next) ==> keys.take(seen + 1).contains(next)) by {
                    if keys.take(seen).contains(next) {
                        let j = choose|j: int| 0 <= j < seen && keys.take(seen)[j] == next;
                        assert(keys.take(seen + 1)[j] == next);
                    }
                }
                seen = seen + 1;
            }
        }
        proof {
            assert(keys.take(seen) =~= keys);
            assert(keys.to_set() == self@);
            if let Some(m) = best {
                assert forall|p: u64| self@.contains(p) implies p <= m by {
                    assert(keys.contains(p));
                }
            } else {
                assert(keys.len() == 0);
                assert(self@ =~= Set::<u64>::empty());
            }
        }
        best
    }

    /// The present positions, in increasing order.
    pub fn positions(&self) -> (r: Vec<u64>)
        ensures
            r@.to_set() == self@,
            r@.no_duplicates(),
    {
        let ghost keys = vstd::std_specs::btree::spec_btree_keys_iter(&self.index).remaining().unref();
        let ghost mut seen: int = 0;
        let mut out: Vec<u64> = Vec::new();
        for p in it: self.index.iter()
            invariant
                keys == vstd::std_specs::btree::spec_btree_keys_iter(&self.index).remaining().unref(),
                it.seq().unref() == keys,
                seen == it.index(),
                out@ == keys.take(seen),
        {
            proof {
                assert(keys[seen] == *p);
                assert(keys.take(seen + 1) =~= keys.take(seen).push(*p));
                seen = seen + 1;
            }
            out.push(*p);
        }
        proof {
            assert(keys.take(seen) =~= keys);
        }
        out
    }

    pub fn set_many_present(&mut self, presence: &[(u64, bool)])
        ensures
            final(self)@ == with_many_presence(old(self)@, presence@),
    {
        let n = presence.len();
        let mut i: usize = 0;
        while i < n
            invariant
                n == presence@.len(),
                i <= n,
                self@ == with_many_presence(old(self)@, presence@.take(i as int)),
            decreases n - i,
        {
            let (idx, present) = presence[i];
            self.set_present(idx, present);
            proof {
                let next = presence@.take(i + 1);
                assert(next.drop_last() =~= presence@.take(i as int));
            }
            i = i + 1;
        }
        proof {
            assert(presence@.take(n as int) =~= presence@);
        }
    }
}

/// Presence of data and coding shreds for one slot.
#[derive(Clone, Debug, Default, PartialEq)]
pub struct Index {
    pub slot: Slot,
    pub data: ShredIndex,
    pub coding: ShredIndex,
}

impl Index {
    /// Index of a slot with no shred present.
    pub fn new(slot: Slot) -> (r: Index)
        ensures
            r.slot == slot,
            r.data@ == Set::<u64>::empty(),
            r.coding@ == Set::<u64>::empty(),
    {
        Index { slot, data: ShredIndex::new(), coding: ShredIndex::new() }
    }

    pub fn data(&self) -> (r: &ShredIndex)
        ensures
            *r == self.data,
    {
        &self.data
    }

    pub fn coding(&self) -> (r: &ShredIndex)
        ensures
            *r == self.coding,
    {
        &self.coding
    }

    pub fn data_mut(&mut self) -> (r: &mut ShredIndex)
        ensures
            *r == old(self).data,
            final(self).data == *final(r),
            final(self).coding == old(self).coding,
            final(self).slot == old(self).slot,
    {
        &mut self.data
    }

    pub fn coding_mut(&mut self) -> (r: &mut ShredIndex)
        ensures
            *r == old(self).coding,
            final(self).coding == *final(r),
            final(self).data == old(self).data,
            final(self).slot == old(self).slot,
    {
        &mut self.coding
    }
}

} // verus!