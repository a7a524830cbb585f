//! A set of address ranges that checks that there are no overlaps,
//! and allows efficient lookups by range.
//!
//! It serves to validate the memory regions that a frontend announces.

use core::cmp::Ordering;
use vstd::prelude::*;

verus! {

/// How a key ranks among keys over the same addresses.
///
/// Stored keys are `Equal`. A lookup for everything that touches a range goes
/// from the `Less` key of that range to its `Greater` key.
#[derive(Clone, Copy, PartialEq, Eq, Structural)]
pub enum Rank {
    Less,
    Equal,
    Greater,
}

impl Rank {
    /// The position of the rank in the order `Less`, `Equal`, `Greater`.
    pub open spec fn position(self) -> int {
        match self {
            Rank::Less => 0,
            Rank::Equal => 1,
            Rank::Greater => 2,
        }
    }

    /// Orders two ranks: `Less`, then `Equal`, then `Greater`.
    pub fn cmp(&self, other: &Rank) -> (order: Ordering)
        ensures
            order == int_order(self.position(), other.position()),
    {
        match (*self, *other) {
            (Rank::Less, Rank::Less) => Ordering::Equal,
            (Rank::Less, _) => Ordering::Less,
            (Rank::Equal, Rank::Less) => Ordering::Greater,
            (Rank::Equal, Rank::Equal) => Ordering::Equal,
            (Rank::Equal, Rank::Greater) => Ordering::Less,
            (Rank::Greater, Rank::Greater) => Ordering::Equal,
            (Rank::Greater, _) => Ordering::Greater,
        }
    }
}

/// The order of two integers.
pub open spec fn int_order(a: int, b: int) -> Ordering {
    if a < b {
        Ordering::Less
    } else if a > b {
        Ordering::Greater
    } else {
        Ordering::Equal
    }
}

/// The range that starts at `base` occupies address `x`. An empty range
/// occupies its base all the same, so that no two ranges share a base.
pub open spec fn occupies(range: (u64, u64), x: int) -> bool {
    x == range.0 || range.0 <= x < range.0 + range.1
}

/// Two ranges occupy a common address.
pub open spec fn overlap(a: (u64, u64), b: (u64, u64)) -> bool {
    exists|x: int| #[trigger] occupies(a, x) && occupies(b, x)
}

/// Range `a` lies below range `b`, with no address in common.
pub open spec fn below(a: (u64, u64), b: (u64, u64)) -> bool {
    a.0 < b.0 && a.0 + a.1 <= b.0
}

/// Two ranges overlap exactly when neither lies below the other.
pub proof fn lemma_overlap_iff(a: (u64, u64), b: (u64, u64))
    ensures
        overlap(a, b) == (!below(a, b) && !below(b, a)),
{
    if !below(a, b) && !below(b, a) {
        if a.0 <= b.0 {
            assert(occupies(a, b.0 as int) && occupies(b, b.0 as int));
        } else {
            assert(occupies(a, a.0 as int) && occupies(b, a.0 as int));
        }
    }
}

/// A range of addresses with a rank.
#[derive(Clone, Copy)]
pub struct MapKey {
    pub base: u64,
    pub size: u64,
    pub is_lookup_key: Rank,
}

impl MapKey {
    /// The addresses of the key, as a base and a size.
    pub open spec fn range(self) -> (u64, u64) {
        (self.base, self.size)
    }

    /// Two keys that overlap have an order only if one of them is a lookup key
    /// for what the other stands for.
    pub open spec fn comparable(self, other: MapKey) -> bool {
        overlap(self.range(), other.range()) ==> {
            let a = self.is_lookup_key;
            let b = other.is_lookup_key;
            &&& !(a == Rank::Less && b == Rank::Less)
            &&& !(a == Rank::Greater && b == Rank::Greater)
            &&& (a == Rank::Equal) == (b == Rank::Equal) ==> self.range() == other.range()
        }
    }

    /// The order of two keys: by address where they do not overlap, else by rank.
    pub open spec fn key_order(self, other: MapKey) -> Ordering {
        if below(self.range(), other.range()) {
            Ordering::Less
        } else if below(other.range(), self.range()) {
            Ordering::Greater
        } else {
            int_order(self.is_lookup_key.position(), other.is_lookup_key.position())
        }
    }

    /// Compares two keys.
    pub fn cmp(&self, other: &MapKey) -> (order: Ordering)
        requires
            self.comparable(*other),
        ensures
            order == self.key_order(*other),
    {
        // This range is strictly below the other.
        if self.base < other.base && other.base - self.base >= self.size {
            return Ordering::Less;
        }
        // This range is strictly above the other.
        if self.base > other.base && self.base - other.base >= other.size {
            return Ordering::Greater;
        }
        self.is_lookup_key.cmp(&other.is_lookup_key)
    }

    /// Compares two keys, for callers that want a partial order.
    pub fn partial_cmp(&self, other: &MapKey) -> (order: Option<Ordering>)
        requires
            self.comparable(*other),
        ensures
            order == Some(self.key_order(*other)),
    {
        Some(self.cmp(other))
    }

    /// Two keys are equal when neither comes before the other.
    pub fn eq(&self, other: &MapKey) -> (equal: bool)
        requires
            self.comparable(*other),
        ensures
            equal == (self.key_order(*other) == Ordering::Equal),
    {
        match self.cmp(other) {
            Ordering::Equal => true,
            _ => false,
        }
    }
}

/// A set of ranges of which no two overlap.
pub struct RangeMap {
    data: Vec<MapKey>,
}

impl View for RangeMap {
    type V = Set<(u64, u64)>;

    /// The stored ranges, each as a base and a size.
    closed spec fn view(&self) -> Set<(u64, u64)> {
        Set::new(|r: (u64, u64)| exists|i: int| 0 <= i < self.data@.len() && #[trigger] self.data@[i].range() == r)
    }
}

/// An index, as an integer.
spec fn at(index: usize) -> int {
    index as int
}

/// Keys that are in order and do not overlap.
spec fn sorted(keys: Seq<MapKey>) -> bool {
    &&& forall|i: int| 0 <= i < keys.len() ==> (#[trigger] keys[i]).is_lookup_key == Rank::Equal
    &&& forall|i: int, j: int| 0 <= i < j < keys.len() ==> below((#[trigger] keys[i]).range(), (#[trigger] keys[j]).range())
}

/// No stored range touches the given one.
pub open spec fn is_free(ranges: Set<(u64, u64)>, range: (u64, u64)) -> bool {
    forall|r: (u64, u64)| #[trigger] ranges.contains(r) ==> !overlap(r, range)
}

impl RangeMap {
    /// The stored ranges are in order and do not overlap.
    pub closed spec fn wf(&self) -> bool {
        &&& sorted(self.data@)
        &&& forall|i: int| 0 <= i < self.data@.len() ==> (#[trigger] self.data@[i]).base + self.data@[i].size <= u64::MAX
    }

    /// Counts the stored keys that come before a lookup key.
    fn lower_bound(&self, key: &MapKey) -> (index: usize)
        requires
            self.wf(),
            key.is_lookup_key == Rank::Less,
        ensures
            index <= self.data@.len(),
            forall|i: int| 0 <= i < index ==> below((#[trigger] self.data@[i]).range(), key.range()),
            forall|i: int| index <= i < self.data@.len() ==> !below((#[trigger] self.data@[i]).range(), key.range()),
    {
        let mut low: usize = 0;
        let mut high: usize = self.data.len();
        while low < high
            invariant
                self.wf(),
                key.is_lookup_key == Rank::Less,
                low <= high <= self.data@.len(),
                forall|i: int| 0 <= i < low ==> below((#[trigger] self.data@[i]).range(), key.range()),
                forall|i: int| high <= i < self.data@.len() ==> !below((#[trigger] self.data@[i]).range(), key.range()),
            decreases high - low,
        {
            let middle: usize = low + (high - low) / 2;
            let stored = self.data[middle];
            proof {
                lemma_overlap_iff(stored.range(), key.range());
            }
            match stored.cmp(key) {
                Ordering::Less => {
                    low = middle + 1;
                },
                _ => {
                    high = middle;
                },
            }
        }
        low
    }

    /// An empty set.
    pub fn new() -> (map: RangeMap)
        ensures
            map.wf(),
            map@ == Set::<(u64, u64)>::empty(),
    {
        let map = RangeMap { data: Vec::new() };
        assert(map@ =~= Set::<(u64, u64)>::empty());
        map
    }

    /// Looks for room: `Some` with the key for the range if the range does not
    /// wrap around and touches no stored range, else `None`.
    pub fn contains_range(&self, base: u64, size: u64) -> (key: Option<MapKey>)
        requires
            self.wf(),
        ensures
            key is Some <==> base + size <= u64::MAX && is_free(self@, (base, size)),
            key matches Some(k) ==> k == (MapKey { base, size, is_lookup_key: Rank::Equal }),
    {
        // Check for overflow
        if u64::MAX - size < base {
            return None;
        }
        let low = MapKey { base, size, is_lookup_key: Rank::Less };
        let high = MapKey { base, size, is_lookup_key: Rank::Greater };
        let index: usize = self.lower_bound(&low);
        proof {
            assert forall|i: int| 0 <= i < self.data@.len() implies overlap((#[trigger] self.data@[i]).range(), (base, size)) == (
                i >= index && !below((base, size), self.data@[i].range())
            ) by {
                lemma_overlap_iff(self.data@[i].range(), (base, size));
            }
        }
        if index < self.data.len() {
            let found = self.data[index];
            match found.cmp(&high) {
                Ordering::Less => {
                    assert(self@.contains(found.range()));
                    assert(overlap(found.range(), (base, size)));
                    return None;
                },
                _ => {
                    assert(below((base, size), self.data@[at(index)].range()));
                },
            }
        }
        assert forall|r: (u64, u64)| #[trigger] self@.contains(r) implies !overlap(r, (base, size)) by {
            let i = choose|i: int| 0 <= i < self.data@.len() && #[trigger] self.data@[i].range() == r;
            if i > index {
                assert(below(self.data@[at(index)].range(), self.data@[i].range()));
            }
        }
        Some(MapKey { base, size, is_lookup_key: Rank::Equal })
    }

    /// Adds a range. Fails, and changes nothing, if the range wraps around or
    /// touches a stored range.
    pub fn insert(&mut self, low: u64, length: u64) -> (result: Result<(), ()>)
        requires
            old(self).wf(),
        ensures
            final(self).wf(),
            result is Ok <==> low + length <= u64::MAX && is_free(old(self)@, (low, length)),
            result is Ok ==> final(self)@ == old(self)@.insert((low, length)),
            result is Err ==> final(self)@ == old(self)@,
    {
        let key = match self.contains_range(low, length) {
            Some(key) => key,
            None => {
                return Err(());
            },
        };
        let start = MapKey { base: low, size: length, is_lookup_key: Rank::Less };
        let index: usize = self.lower_bound(&start);
        let ghost before = self.data@;
        let ghost stored = self@;
        proof {
            assert forall|i: int| index <= i < before.len() implies below(key.range(), (#[trigger] before[i]).range()) by {
                lemma_overlap_iff(before[i].range(), key.range());
                assert(stored.contains(before[i].range()));
            }
        }
        self.data.insert(index, key);
        proof {
            let after = self.data@;
            assert(after[at(index)] == key);
            assert forall|i: int| 0 <= i < before.len() implies #[trigger] before[i] == after[if i < index { i } else { i + 1 }] by {}
            assert(sorted(after)) by {
                assert forall|i: int, j: int| 0 <= i < j < after.len() implies below(
                    (#[trigger] after[i]).range(),
                    (#[trigger] after[j]).range(),
                ) by {
                    let p = if i < index { i } else { i - 1 };
                    let q = if j < index { j } else { j - 1 };
                    assert(i != index ==> after[i] == before[p]);
                    assert(j != index ==> after[j] == before[q]);
                }
            }
            assert forall|r: (u64, u64)| #[trigger] self@.contains(r) == stored.insert(key.range()).contains(r) by {
                if self@.contains(r) {
                    let i = choose|i: int| 0 <= i < after.len() && #[trigger] after[i].range() == r;
                    if i != index {
                        let p = if i < index { i } else { i - 1 };
                        assert(before[p].range() == r);
                    }
                }
                if stored.contains(r) {
                    let i = choose|i: int| 0 <= i < before.len() && #[trigger] before[i].range() == r;
                    assert(after[if i < index { i } else { i + 1 }].range() == r);
                }
            }
            assert(self@ =~= stored.insert(key.range()));
        }
        Ok(())
    }

    /// Removes a range, and tells whether it was stored. The range must be one
    /// that is stored, or touch none that is.
    pub fn remove(&mut self, base: u64, size: u64) -> (removed: bool)
        requires
            old(self).wf(),
            forall|r: (u64, u64)| #[trigger] old(self)@.contains(r) && overlap(r, (base, size)) ==> r == (base, size),
        ensures
            final(self).wf(),
            removed == old(self)@.contains((base, size)),
            final(self)@ == old(self)@.remove((base, size)),
    {
        let key = MapKey { base, size, is_lookup_key: Rank::Equal };
        let start = MapKey { base, size, is_lookup_key: Rank::Less };
        let index: usize = self.lower_bound(&start);
        let ghost before = self.data@;
        let ghost stored = self@;
        proof {
            assert forall|i: int| 0 <= i < before.len() implies stored.contains((#[trigger] before[i]).range()) && overlap(before[i].range(), (base, size)) == (
                i >= index && !below((base, size), before[i].range())
            ) by {
                lemma_overlap_iff(before[i].range(), (base, size));
            }
        }
        if index < self.data.len() {
            let found = self.data[index];
            assert(found == before[at(index)]);
            if found.eq(&key) {
                let _ = self.data.remove(index);
                proof {
                    let after = self.data@;
                    assert(found.range() == (base, size));
                    assert forall|i: int| 0 <= i < after.len() implies #[trigger] after[i] == before[if i < index { i } else { i + 1 }] by {}
                    assert forall|r: (u64, u64)| #[trigger] self@.contains(r) == stored.remove((base, size)).contains(r) by {
                        if self@.contains(r) {
                            let i = choose|i: int| 0 <= i < after.len() && #[trigger] after[i].range() == r;
                            let p = if i < index { i } else { i + 1 };
                            assert(before[p].range() == r);
                            if p < index {
                                assert(below(before[p].range(), before[at(index)].range()));
                            } else {
                                assert(below(before[at(index)].range(), before[p].range()));
                            }
                        }
                        if stored.remove((base, size)).contains(r) {
                            let i = choose|i: int| 0 <= i < before.len() && #[trigger] before[i].range() == r;
                            assert(i != index);
                            assert(after[if i < index { i } else { i - 1 }].range() == r);
                        }
                    }
                    assert(self@ =~= stored.remove((base, size)));
                }
                return true;
            }
        }
        proof {
            if stored.contains((base, size)) {
                let i = choose|i: int| 0 <= i < before.len() && #[trigger] before[i].range() == (base, size);
                lemma_overlap_iff(before[i].range(), (base, size));
                if i > index {
                    assert(below(before[at(index)].range(), before[i].range()));
                    assert(overlap(before[at(index)].range(), (base, size)) || below((base, size), before[at(index)].range()));
                }
                assert(false);
            }
            assert(self@ =~= stored.remove((base, size)));
        }
        false
    }
}

impl Default for RangeMap {
    fn default() -> (map: RangeMap)
        ensures
            map.wf(),
            map@ == Set::<(u64, u64)>::empty(),
    {
        RangeMap::new()
    }
}

/// No two stored ranges overlap, and none wraps around.
pub proof fn law_no_overlaps(map: RangeMap, a: (u64, u64), b: (u64, u64))
    requires
        map.wf(),
        map@.contains(a),
        map@.contains(b),
    ensures
        a.0 + a.1 <= u64::MAX,
        a != b ==> !overlap(a, b),
{
    let i = choose|i: int| 0 <= i < map.data@.len() && #[trigger] map.data@[i].range() == a;
    let j = choose|j: int| 0 <= j < map.data@.len() && #[trigger] map.data@[j].range() == b;
    lemma_overlap_iff(a, b);
    if i < j {
        assert(below(map.data@[i].range(), map.data@[j].range()));
    } else if j < i {
        assert(below(map.data@[j].range(), map.data@[i].range()));
    }
}

/// A range that was added keeps every range that touches it out.
pub proof fn law_inserted_is_taken(ranges: Set<(u64, u64)>, range: (u64, u64), other: (u64, u64))
    requires
        overlap(range, other),
    ensures
        !is_free(ranges.insert(range), other),
{
    assert(ranges.insert(range).contains(range));
}

/// Removing a range undoes its insertion, and leaves room for it again.
pub proof fn law_remove_undoes_insert(ranges: Set<(u64, u64)>, range: (u64, u64))
    requires
        is_free(ranges, range),
    ensures
        ranges.insert(range).remove(range) == ranges,
        is_free(ranges.insert(range).remove(range), range),
{
    if ranges.contains(range) {
        assert(occupies(range, range.0 as int));
        assert(overlap(range, range));
    }
    assert(ranges.insert(range).remove(range) =~= ranges);
}

/// After an insertion the range itself can be removed: nothing else touches it.
pub proof fn law_inserted_can_be_removed(ranges: Set<(u64, u64)>, range: (u64, u64), stored: (u64, u64))
    requires
        is_free(ranges, range),
        ranges.insert(range).contains(stored),
        overlap(stored, range),
    ensures
        stored == range,
{
}

/// On ranges that are free of overlaps the order of keys is antisymmetric and
/// transitive, so a sorted sequence of keys stays searchable.
pub proof fn law_order_is_consistent(a: MapKey, b: MapKey, c: MapKey)
    requires
        a.comparable(b),
    ensures
        (a.key_order(b) == Ordering::Less) == (b.key_order(a) == Ordering::Greater),
        (a.key_order(b) == Ordering::Equal) == (b.key_order(a) == Ordering::Equal),
        below(a.range(), b.range()) && below(b.range(), c.range()) ==> a.key_order(c) == Ordering::Less,
{
    lemma_overlap_iff(a.range(), b.range());
}

/// Two ranges overlap exactly if each starts before the end of the other, where an
/// empty range counts as one address.
pub proof fn law_overlap_by_ends(a: (u64, u64), b: (u64, u64))
    ensures
        ({
            let a_end = a.0 + (if a.1 == 0 { 1int } else { a.1 as int });
            let b_end = b.0 + (if b.1 == 0 { 1int } else { b.1 as int });
            overlap(a, b) <==> a.0 < b_end && b.0 < a_end
        }),
        overlap(a, b) == overlap(b, a),
        overlap(a, a),
{
    if a.0 <= b.0 {
        assert(occupies(b, b.0 as int));
        assert(overlap(a, b) ==> exists|x: int| #[trigger] occupies(a, x) && occupies(b, x));
        if occupies(a, b.0 as int) {
            assert(overlap(a, b) && overlap(b, a));
        }
    } else {
        assert(occupies(a, a.0 as int));
        if occupies(b, a.0 as int) {
            assert(overlap(a, b) && overlap(b, a));
        }
    }
    assert(occupies(a, a.0 as int));
}

/// A range is free exactly if every stored range ends before it starts, or starts
/// after it ends.
pub proof fn law_free_by_ends(ranges: Set<(u64, u64)>, range: (u64, u64))
    ensures
        is_free(ranges, range) <==> forall|r: (u64, u64)| #[trigger]
            ranges.contains(r) ==> {
                ||| r.0 + (if r.1 == 0 { 1int } else { r.1 as int }) <= range.0
                ||| range.0 + (if range.1 == 0 { 1int } else { range.1 as int }) <= r.0
            },
{
    assert forall|r: (u64, u64)| #[trigger] ranges.contains(r) implies overlap(r, range) == !{
        ||| r.0 + (if r.1 == 0 { 1int } else { r.1 as int }) <= range.0
        ||| range.0 + (if range.1 == 0 { 1int } else { range.1 as int }) <= r.0
    } by {
        law_overlap_by_ends(r, range);
    }
}

/// Keys over separate addresses are ordered by their bases, whatever their ranks.
/// Where they overlap, the rank decides: a lookup for a range starts before the stored
/// key and ends after it.
pub proof fn law_rank_decides_overlaps(a: MapKey, b: MapKey)
    requires
        a.comparable(b),
    ensures
        !overlap(a.range(), b.range()) ==> a.key_order(b) == (if a.base < b.base {
            Ordering::Less
        } else {
            Ordering::Greater
        }),
        overlap(a.range(), b.range()) ==> {
            &&& a.is_lookup_key == b.is_lookup_key <==> a.key_order(b) == Ordering::Equal
            &&& a.is_lookup_key == Rank::Less ==> a.key_order(b) == Ordering::Less
            &&& a.is_lookup_key == Rank::Greater ==> a.key_order(b) == Ordering::Greater
            &&& b.is_lookup_key == Rank::Less ==> a.key_order(b) == Ordering::Greater
            &&& b.is_lookup_key == Rank::Greater ==> a.key_order(b) == Ordering::Less
        },
        a.range() == (a.base, a.size),
{
    lemma_overlap_iff(a.range(), b.range());
}

} // verus!
