//! The mathematical model of the instance table: its view, the layout
//! invariant, and what an allocation does to both.

use vstd::prelude::*;
use crate::instance::{Instance, InstanceType};

verus! {

/// Why a table operation was refused.
#[derive(Clone, Copy, PartialEq, Eq, Structural, Debug)]
pub enum TableError {
    /// The bucket of this type is full, cannot be created, or the type is `Empty`.
    AllocationFailed(InstanceType),
    /// The slot index is not below the table's capacity.
    IndexOutOfRange,
}

/// A contiguous run of slots reserved for one instance type.
pub struct Bucket {
    pub kind: InstanceType,
    /// First slot of the run.
    pub start: int,
    /// Number of slots reserved; fixed when the bucket is created.
    pub capacity: int,
    /// Number of slots filled; they form a prefix of the run.
    pub len: int,
}

impl Bucket {
    /// One past the last reserved slot.
    pub open spec fn end(self) -> int {
        self.start + self.capacity
    }

    /// The highest filled slot.
    pub open spec fn top(self) -> int {
        self.start + self.len - 1
    }
}

/// What a table is, mathematically.
pub struct TableView {
    /// The records, one per slot.
    pub slots: Seq<Instance>,
    /// The buckets in the order in which their types were first added.
    pub buckets: Seq<Bucket>,
    /// The slots awaiting synchronization.
    pub dirty: Set<int>,
    /// The highest slot ever filled, `0` while nothing was added.
    pub high_watermark: int,
    /// The number of successful allocations.
    pub total_added: int,
}

/// One past the last slot that any bucket reserves.
pub open spec fn buckets_end(bs: Seq<Bucket>) -> int {
    if bs.len() == 0 {
        0
    } else {
        bs.last().end()
    }
}

/// The highest filled slot of a layout, `0` for the empty layout.
pub open spec fn highest_occupied(bs: Seq<Bucket>) -> int {
    if bs.len() == 0 {
        0
    } else {
        bs.last().top()
    }
}

/// The number of filled slots of a layout.
pub open spec fn occupied(bs: Seq<Bucket>) -> int
    decreases bs.len(),
{
    if bs.len() == 0 {
        0
    } else {
        occupied(bs.drop_last()) + bs.last().len
    }
}

/// Bucket `k` holds a real type, is non-empty and not overfull, begins where
/// its predecessor ends, and lies inside a table of `cap` slots.
pub open spec fn bucket_ok(bs: Seq<Bucket>, k: int, cap: int) -> bool {
    &&& bs[k].kind != InstanceType::Empty
    &&& 1 <= bs[k].len <= bs[k].capacity
    &&& bs[k].start == if k == 0 { 0 } else { bs[k - 1].end() }
    &&& bs[k].end() <= cap
}

/// The buckets tile a prefix of the table, one bucket per type.
pub open spec fn buckets_wf(bs: Seq<Bucket>, cap: int) -> bool {
    &&& forall|k: int| 0 <= k < bs.len() ==> #[trigger] bucket_ok(bs, k, cap)
    &&& forall|j: int, k: int|
        0 <= j < k < bs.len() ==> (#[trigger] bs[j]).kind != (#[trigger] bs[k]).kind
}

/// The record that `add` stores for candidate `c` at `slot` of bucket `b`.
pub open spec fn stamped(c: Instance, b: Bucket, slot: int) -> Instance {
    Instance {
        instance_type: c.instance_type,
        position: c.position,
        rotation: c.rotation,
        start_offset: b.start as usize,
        array_index: slot as usize,
        max_allowed: b.capacity as usize,
    }
}

/// Slot `i` of bucket `k` is filled and stamped if it lies in the filled
/// prefix, and free otherwise.
pub open spec fn slot_ok(slots: Seq<Instance>, bs: Seq<Bucket>, k: int, i: int) -> bool {
    if i < bs[k].start + bs[k].len {
        &&& slots[i].instance_type == bs[k].kind
        &&& slots[i].array_index == i
        &&& slots[i].start_offset == bs[k].start
        &&& slots[i].max_allowed == bs[k].capacity
    } else {
        slots[i].instance_type == InstanceType::Empty
    }
}

/// Every reserved slot agrees with its bucket and every unreserved slot is free.
pub open spec fn slots_match(slots: Seq<Instance>, bs: Seq<Bucket>) -> bool {
    &&& forall|k: int, i: int|
        0 <= k < bs.len() && bs[k].start <= i < bs[k].end() ==> #[trigger] slot_ok(slots, bs, k, i)
    &&& forall|i: int|
        buckets_end(bs) <= i < slots.len() ==> (#[trigger] slots[i]).instance_type
            == InstanceType::Empty
}

/// The table invariant, over the view.
pub open spec fn view_wf(v: TableView) -> bool {
    &&& v.slots.len() <= usize::MAX
    &&& buckets_wf(v.buckets, v.slots.len() as int)
    &&& slots_match(v.slots, v.buckets)
    &&& forall|i: int| v.dirty.contains(i) ==> 0 <= i < v.slots.len()
    &&& v.high_watermark == highest_occupied(v.buckets)
    &&& v.total_added == occupied(v.buckets)
}

/// Whether a bucket of type `kind` exists.
pub open spec fn has_bucket(bs: Seq<Bucket>, kind: InstanceType) -> bool {
    exists|k: int| 0 <= k < bs.len() && (#[trigger] bs[k]).kind == kind
}

/// The position of the bucket of type `kind`, where one exists.
pub open spec fn bucket_index(bs: Seq<Bucket>, kind: InstanceType) -> int {
    choose|k: int| 0 <= k < bs.len() && (#[trigger] bs[k]).kind == kind
}

/// The bucket that receives a candidate of type `kind` declaring `declared`
/// slots, as it is after the allocation; `None` where the allocation fails.
///
/// An existing bucket takes the candidate while it has a free slot, whatever
/// capacity the candidate declares: the first registration wins. A new bucket
/// is created behind the last one if the type is not `Empty`, `declared` is
/// at least one and the whole bucket fits into the table.
pub open spec fn add_target(v: TableView, kind: InstanceType, declared: int) -> Option<Bucket> {
    if kind == InstanceType::Empty {
        None
    } else if has_bucket(v.buckets, kind) {
        let b = v.buckets[bucket_index(v.buckets, kind)];
        if b.len < b.capacity {
            Some(Bucket { kind: b.kind, start: b.start, capacity: b.capacity, len: b.len + 1 })
        } else {
            None
        }
    } else if declared >= 1 && buckets_end(v.buckets) + declared <= v.slots.len() {
        Some(Bucket { kind, start: buckets_end(v.buckets), capacity: declared, len: 1 })
    } else {
        None
    }
}

/// What `add` returns for candidate `c`: the slot it fills, or the type
/// whose allocation failed.
pub open spec fn add_result(v: TableView, c: Instance) -> Result<usize, TableError> {
    match add_target(v, c.instance_type, c.max_allowed as int) {
        Some(b) => Ok(b.top() as usize),
        None => Err(TableError::AllocationFailed(c.instance_type)),
    }
}

/// The table after `add` of candidate `c`: unchanged on failure; on success
/// the stamped record is stored, its slot is dirty, the bucket has grown by
/// one (a new bucket is appended), and the counters are advanced.
pub open spec fn add_view(v: TableView, c: Instance) -> TableView {
    match add_target(v, c.instance_type, c.max_allowed as int) {
        None => v,
        Some(b) => TableView {
            slots: v.slots.update(b.top(), stamped(c, b, b.top())),
            buckets: if has_bucket(v.buckets, c.instance_type) {
                v.buckets.update(bucket_index(v.buckets, c.instance_type), b)
            } else {
                v.buckets.push(b)
            },
            dirty: v.dirty.insert(b.top()),
            high_watermark: if b.top() > v.high_watermark {
                b.top()
            } else {
                v.high_watermark
            },
            total_added: v.total_added + 1,
        },
    }
}

/// The table after adding the candidates of `cands` one after the other.
pub open spec fn add_all(v: TableView, cands: Seq<Instance>) -> TableView
    decreases cands.len(),
{
    if cands.len() == 0 {
        v
    } else {
        add_view(add_all(v, cands.drop_last()), cands.last())
    }
}

/// The table after `update` of slot `index`: the slot is dirty if it exists.
pub open spec fn update_view(v: TableView, index: int) -> TableView {
    if 0 <= index < v.slots.len() {
        TableView { dirty: v.dirty.insert(index), ..v }
    } else {
        v
    }
}

/// In a tiling layout an earlier bucket ends before a later one begins.
pub proof fn lemma_buckets_ordered(bs: Seq<Bucket>, cap: int, j: int, k: int)
    requires
        buckets_wf(bs, cap),
        0 <= j < k < bs.len(),
    ensures
        bs[j].end() <= bs[k].start,
        bs[j].start < bs[k].start,
    decreases k - j,
{
    assert(bucket_ok(bs, k, cap));
    assert(bucket_ok(bs, k - 1, cap));
    if j < k - 1 {
        lemma_buckets_ordered(bs, cap, j, k - 1);
    }
}

/// A layout's bucket of a given type is unique.
pub proof fn lemma_bucket_index(bs: Seq<Bucket>, cap: int, k: int)
    requires
        buckets_wf(bs, cap),
        0 <= k < bs.len(),
    ensures
        has_bucket(bs, bs[k].kind),
        bucket_index(bs, bs[k].kind) == k,
{
}

/// A prefix of a tiling layout is a tiling layout.
pub proof fn lemma_prefix_wf(bs: Seq<Bucket>, cap: int)
    requires
        buckets_wf(bs, cap),
        bs.len() > 0,
    ensures
        buckets_wf(bs.drop_last(), cap),
        buckets_end(bs.drop_last()) == bs.last().start,
{
    let p = bs.drop_last();
    assert forall|k: int| 0 <= k < p.len() implies #[trigger] bucket_ok(p, k, cap) by {
        assert(bucket_ok(bs, k, cap));
    }
    assert(bucket_ok(bs, bs.len() - 1, cap));
}

/// No more slots are filled than the buckets reserve, and every bucket holds
/// at least one record.
pub proof fn lemma_occupied_bounds(bs: Seq<Bucket>, cap: int)
    requires
        buckets_wf(bs, cap),
        0 <= cap,
    ensures
        bs.len() <= occupied(bs) <= buckets_end(bs) <= cap,
    decreases bs.len(),
{
    if bs.len() > 0 {
        lemma_prefix_wf(bs, cap);
        lemma_occupied_bounds(bs.drop_last(), cap);
        assert(bucket_ok(bs, bs.len() - 1, cap));
    }
}

/// Filling one more slot of bucket `k` fills one more slot of the layout.
pub proof fn lemma_occupied_grow(bs: Seq<Bucket>, k: int, b: Bucket)
    requires
        0 <= k < bs.len(),
        b.len == bs[k].len + 1,
    ensures
        occupied(bs.update(k, b)) == occupied(bs) + 1,
    decreases bs.len(),
{
    let u = bs.update(k, b);
    if k == bs.len() - 1 {
        assert(u.drop_last() =~= bs.drop_last());
    } else {
        assert(u.drop_last() =~= bs.drop_last().update(k, b));
        lemma_occupied_grow(bs.drop_last(), k, b);
    }
}

/// The end of a tiling layout is the end of its last bucket, and no bucket
/// ends behind it.
pub proof fn lemma_bucket_inside(bs: Seq<Bucket>, cap: int, k: int)
    requires
        buckets_wf(bs, cap),
        0 <= k < bs.len(),
    ensures
        0 <= bs[k].start < bs[k].top() + 1 <= bs[k].end() <= buckets_end(bs) <= cap,
        bs[k].start <= highest_occupied(bs),
        k < bs.len() - 1 ==> bs[k].end() <= highest_occupied(bs),
{
    let last = bs.len() - 1;
    assert(bucket_ok(bs, k, cap));
    assert(bucket_ok(bs, last, cap));
    if k < last {
        lemma_buckets_ordered(bs, cap, k, last);
    }
    if k > 0 {
        lemma_buckets_ordered(bs, cap, 0, k);
    }
    assert(bucket_ok(bs, 0, cap));
}

/// Allocation keeps the table invariant.
pub proof fn lemma_add_preserves_wf(v: TableView, c: Instance)
    requires
        view_wf(v),
    ensures
        view_wf(add_view(v, c)),
{
    let kind = c.instance_type;
    let cap = v.slots.len() as int;
    let bs = v.buckets;
    let w = add_view(v, c);
    lemma_occupied_bounds(bs, cap);
    match add_target(v, kind, c.max_allowed as int) {
        None => {},
        Some(b) => {
            if has_bucket(bs, kind) {
                let k = bucket_index(bs, kind);
                let nb = bs.update(k, b);
                lemma_bucket_inside(bs, cap, k);
                assert forall|j: int| 0 <= j < nb.len() implies #[trigger] bucket_ok(
                    nb,
                    j,
                    cap,
                ) by {
                    assert(bucket_ok(bs, j, cap));
                }
                assert forall|k2: int, i: int|
                    0 <= k2 < nb.len() && nb[k2].start <= i < nb[k2].end() implies #[trigger] slot_ok(
                    w.slots,
                    nb,
                    k2,
                    i,
                ) by {
                    assert(slot_ok(v.slots, bs, k2, i));
                    lemma_bucket_inside(bs, cap, k2);
                    if k2 < k {
                        lemma_buckets_ordered(bs, cap, k2, k);
                    } else if k < k2 {
                        lemma_buckets_ordered(bs, cap, k, k2);
                    }
                }
                lemma_occupied_grow(bs, k, b);
            } else {
                let nb = bs.push(b);
                assert(nb.drop_last() =~= bs);
                if bs.len() > 0 {
                    lemma_bucket_inside(bs, cap, bs.len() - 1);
                }
                assert forall|j: int| 0 <= j < nb.len() implies #[trigger] bucket_ok(
                    nb,
                    j,
                    cap,
                ) by {
                    if j < bs.len() {
                        assert(bucket_ok(bs, j, cap));
                    }
                }
                assert forall|i: int, j: int| 0 <= i < j < nb.len() implies (#[trigger] nb[i]).kind
                    != (#[trigger] nb[j]).kind by {}
                assert forall|k2: int, i: int|
                    0 <= k2 < nb.len() && nb[k2].start <= i < nb[k2].end() implies #[trigger] slot_ok(
                    w.slots,
                    nb,
                    k2,
                    i,
                ) by {
                    if k2 < bs.len() {
                        assert(slot_ok(v.slots, bs, k2, i));
                        lemma_bucket_inside(bs, cap, k2);
                    }
                }
            }
        },
    }
}

} // verus!
