//! What holds of every table: statements that relate several operations,
//! proved from the model.

use vstd::prelude::*;
use crate::instance::{Instance, InstanceType};
use crate::table_model::{
    add_all, add_result, add_view, bucket_index, bucket_ok, buckets_end, has_bucket,
    lemma_add_preserves_wf, lemma_bucket_index, lemma_bucket_inside, lemma_buckets_ordered,
    lemma_occupied_bounds, slot_ok, update_view, view_wf, Bucket, TableError, TableView,
};

verus! {

/// The number of candidates of type `kind` in `cands`.
pub open spec fn count_kind(cands: Seq<Instance>, kind: InstanceType) -> int
    decreases cands.len(),
{
    if cands.len() == 0 {
        0
    } else {
        count_kind(cands.drop_last(), kind) + if cands.last().instance_type == kind {
            1int
        } else {
            0int
        }
    }
}

/// Buckets never overlap and keep the order of first insertion: if the
/// bucket of `first` was created before the bucket of `second`, the second
/// begins at or behind the end of the first.
pub proof fn theorem_buckets_ordered(v: TableView, first: InstanceType, second: InstanceType)
    requires
        view_wf(v),
        has_bucket(v.buckets, first),
        has_bucket(v.buckets, second),
        bucket_index(v.buckets, first) < bucket_index(v.buckets, second),
    ensures
        v.buckets[bucket_index(v.buckets, second)].start >= v.buckets[bucket_index(
            v.buckets,
            first,
        )].start + v.buckets[bucket_index(v.buckets, first)].capacity,
{
    lemma_buckets_ordered(
        v.buckets,
        v.slots.len() as int,
        bucket_index(v.buckets, first),
        bucket_index(v.buckets, second),
    );
}

/// An allocation leaves every existing bucket at its position, start and
/// capacity, and puts the bucket of a type seen for the first time behind
/// all the others.
pub proof fn theorem_first_seen_order(v: TableView, c: Instance)
    requires
        view_wf(v),
    ensures
        add_view(v, c).slots.len() == v.slots.len(),
        v.buckets.len() <= add_view(v, c).buckets.len() <= v.buckets.len() + 1,
        forall|k: int|
            0 <= k < v.buckets.len() ==> {
                let b = #[trigger] add_view(v, c).buckets[k];
                &&& b.kind == v.buckets[k].kind
                &&& b.start == v.buckets[k].start
                &&& b.capacity == v.buckets[k].capacity
                &&& b.len == v.buckets[k].len + if add_result(v, c) is Ok && b.kind
                    == c.instance_type {
                    1int
                } else {
                    0int
                }
            },
        add_view(v, c).buckets.len() == v.buckets.len() + 1 <==> add_result(v, c) is Ok
            && !has_bucket(v.buckets, c.instance_type),
        add_view(v, c).buckets.len() == v.buckets.len() + 1 ==> add_view(v, c).buckets.last()
            == (Bucket {
            kind: c.instance_type,
            start: buckets_end(v.buckets),
            capacity: c.max_allowed as int,
            len: 1,
        }),
{
    let bs = v.buckets;
    let kind = c.instance_type;
    lemma_occupied_bounds(bs, v.slots.len() as int);
    if has_bucket(bs, kind) {
        let i = bucket_index(bs, kind);
        lemma_bucket_inside(bs, v.slots.len() as int, i);
        assert forall|k: int| 0 <= k < bs.len() && bs[k].kind == kind implies k == i by {
            lemma_bucket_index(bs, v.slots.len() as int, k);
        }
    }
}

/// The buckets are exactly the types present: a type has a bucket if and
/// only if some slot holds a record of it, and no two buckets share a type.
pub proof fn theorem_one_bucket_per_type(v: TableView, kind: InstanceType)
    requires
        view_wf(v),
        kind != InstanceType::Empty,
    ensures
        has_bucket(v.buckets, kind) <==> exists|i: int|
            0 <= i < v.slots.len() && (#[trigger] v.slots[i]).instance_type == kind,
        forall|j: int, k: int|
            0 <= j < k < v.buckets.len() ==> (#[trigger] v.buckets[j]).kind != (
            #[trigger] v.buckets[k]).kind,
{
    let bs = v.buckets;
    let cap = v.slots.len() as int;
    if has_bucket(bs, kind) {
        let k = bucket_index(bs, kind);
        lemma_bucket_inside(bs, cap, k);
        assert(slot_ok(v.slots, bs, k, bs[k].start));
    }
    if exists|i: int| 0 <= i < v.slots.len() && (#[trigger] v.slots[i]).instance_type == kind {
        let i = choose|i: int| 0 <= i < v.slots.len() && (#[trigger] v.slots[i]).instance_type == kind;
        lemma_slot_owner(v, i);
    }
}

/// The types of which the table holds at least one record.
pub open spec fn types_present(v: TableView) -> Set<InstanceType> {
    Set::new(
        |kind: InstanceType|
            kind != InstanceType::Empty && exists|i: int|
                0 <= i < v.slots.len() && (#[trigger] v.slots[i]).instance_type == kind,
    )
}

/// There are as many buckets, and so as many draw calls per frame, as there
/// are types present in the table, however full their buckets are.
pub proof fn theorem_draw_call_count(v: TableView)
    requires
        view_wf(v),
    ensures
        types_present(v).finite(),
        types_present(v).len() == v.buckets.len(),
{
    let kinds = v.buckets.map_values(|b: Bucket| b.kind);
    assert forall|kind: InstanceType| kinds.to_set().contains(kind) <==> types_present(v).contains(
        kind,
    ) by {
        if kinds.to_set().contains(kind) {
            let k = choose|k: int| 0 <= k < kinds.len() && kinds[k] == kind;
            assert(bucket_ok(v.buckets, k, v.slots.len() as int));
            theorem_one_bucket_per_type(v, kind);
        }
        if types_present(v).contains(kind) {
            theorem_one_bucket_per_type(v, kind);
            let k = bucket_index(v.buckets, kind);
            assert(kinds[k] == kind);
        }
    }
    assert(kinds.to_set() =~= types_present(v));
    kinds.unique_seq_to_set();
}

/// A filled slot lies in the filled prefix of the bucket of its type.
pub proof fn lemma_slot_owner(v: TableView, i: int)
    requires
        view_wf(v),
        0 <= i < v.slots.len(),
        v.slots[i].instance_type != InstanceType::Empty,
    ensures
        has_bucket(v.buckets, v.slots[i].instance_type),
        ({
            let b = v.buckets[bucket_index(v.buckets, v.slots[i].instance_type)];
            b.start <= i <= b.top()
        }),
{
    let bs = v.buckets;
    let cap = v.slots.len() as int;
    let k = lemma_covering_bucket(bs, cap, i);
    assert(slot_ok(v.slots, bs, k, i));
    lemma_bucket_index(bs, cap, k);
}

/// Every slot below the end of a tiling layout lies in one of its buckets.
pub proof fn lemma_covering_bucket(bs: Seq<Bucket>, cap: int, i: int) -> (k: int)
    requires
        crate::table_model::buckets_wf(bs, cap),
        0 <= i < buckets_end(bs),
    ensures
        0 <= k < bs.len(),
        bs[k].start <= i < bs[k].end(),
    decreases bs.len(),
{
    let last = bs.len() - 1;
    if bs[last].start <= i {
        last
    } else {
        crate::table_model::lemma_prefix_wf(bs, cap);
        lemma_covering_bucket(bs.drop_last(), cap, i)
    }
}

/// What a run of allocations has made of the bucket of `kind`, given that
/// `n` of them were of that type, all declaring `capacity` slots, and that
/// the table ended at `start` when the first of them came: no bucket before
/// the first, and then a bucket at `start` holding the first `capacity` of them.
pub open spec fn exhaustion_state(
    w: TableView,
    kind: InstanceType,
    start: int,
    capacity: int,
    n: int,
) -> bool {
    if n == 0 || capacity == 0 {
        !has_bucket(w.buckets, kind)
    } else {
        let b = w.buckets[bucket_index(w.buckets, kind)];
        &&& has_bucket(w.buckets, kind)
        &&& b.start == start
        &&& b.capacity == capacity
        &&& b.len == if n < capacity {
            n
        } else {
            capacity
        }
    }
}

/// The premises of the exhaustion theorem: `cands[first]` is the first
/// candidate of its type, the type has no bucket yet, every candidate of the
/// type declares `capacity` slots, and a bucket of that size fits behind the
/// buckets that exist when the first candidate arrives.
pub open spec fn exhaustion_run(
    v: TableView,
    cands: Seq<Instance>,
    capacity: int,
    first: int,
) -> bool {
    let kind = cands[first].instance_type;
    &&& view_wf(v)
    &&& 0 <= first < cands.len()
    &&& kind != InstanceType::Empty
    &&& !has_bucket(v.buckets, kind)
    &&& forall|j: int| 0 <= j < first ==> (#[trigger] cands[j]).instance_type != kind
    &&& forall|j: int|
        0 <= j < cands.len() && (#[trigger] cands[j]).instance_type == kind
            ==> cands[j].max_allowed == capacity
    &&& buckets_end(add_all(v, cands.take(first)).buckets) + capacity <= v.slots.len()
}

/// The state of the bucket of the run's type after the first `i` candidates.
pub proof fn lemma_exhaustion_state(
    v: TableView,
    cands: Seq<Instance>,
    capacity: int,
    first: int,
    i: int,
)
    requires
        exhaustion_run(v, cands, capacity, first),
        0 <= i <= cands.len(),
    ensures
        view_wf(add_all(v, cands.take(i))),
        add_all(v, cands.take(i)).slots.len() == v.slots.len(),
        i <= first ==> count_kind(cands.take(i), cands[first].instance_type) == 0,
        i > first ==> count_kind(cands.take(i), cands[first].instance_type) >= 1,
        exhaustion_state(
            add_all(v, cands.take(i)),
            cands[first].instance_type,
            buckets_end(add_all(v, cands.take(first)).buckets),
            capacity,
            count_kind(cands.take(i), cands[first].instance_type),
        ),
    decreases i,
{
    let kind = cands[first].instance_type;
    if i > 0 {
        lemma_exhaustion_state(v, cands, capacity, first, i - 1);
        let prev = add_all(v, cands.take(i - 1));
        let c = cands[i - 1];
        assert(cands.take(i).drop_last() =~= cands.take(i - 1));
        let w = add_view(prev, c);
        let bs = prev.buckets;
        let nb = w.buckets;
        let cap = v.slots.len() as int;
        lemma_add_preserves_wf(prev, c);
        theorem_first_seen_order(prev, c);
        if has_bucket(bs, kind) {
            let k = bucket_index(bs, kind);
            lemma_bucket_index(nb, cap, k);
        } else if c.instance_type == kind && add_result(prev, c) is Ok {
            lemma_bucket_index(nb, cap, nb.len() - 1);
        }
    }
}

/// Bucket exhaustion: of the allocations of one type, all declaring
/// `capacity` slots, the first `capacity` succeed and fill the bucket from
/// its start upwards, one slot after the other; every later one fails with
/// `AllocationFailed` of that type. Allocations of other types may come in
/// between.
pub proof fn theorem_bucket_exhaustion(
    v: TableView,
    cands: Seq<Instance>,
    capacity: int,
    first: int,
    i: int,
)
    requires
        exhaustion_run(v, cands, capacity, first),
        first <= i < cands.len(),
        cands[i].instance_type == cands[first].instance_type,
    ensures
        ({
            let kind = cands[first].instance_type;
            let earlier = count_kind(cands.take(i), kind);
            let start = buckets_end(add_all(v, cands.take(first)).buckets);
            add_result(add_all(v, cands.take(i)), cands[i]) == if earlier < capacity {
                Ok::<usize, TableError>((start + earlier) as usize)
            } else {
                Err::<usize, TableError>(TableError::AllocationFailed(kind))
            }
        }),
{
    lemma_exhaustion_state(v, cands, capacity, first, i);
    lemma_exhaustion_state(v, cands, capacity, first, first);
}

/// A record read back right after its allocation has the type, position and
/// rotation of the candidate, and knows its own slot.
pub proof fn theorem_round_trip(v: TableView, c: Instance)
    requires
        view_wf(v),
        add_result(v, c) is Ok,
    ensures
        ({
            let slot = add_result(v, c)->Ok_0 as int;
            let stored = add_view(v, c).slots[slot];
            &&& 0 <= slot < v.slots.len()
            &&& stored.instance_type == c.instance_type
            &&& stored.position == c.position
            &&& stored.rotation == c.rotation
            &&& stored.array_index == slot
            &&& add_view(v, c).dirty.contains(slot)
        }),
{
    lemma_add_preserves_wf(v, c);
    lemma_occupied_bounds(v.buckets, v.slots.len() as int);
    if has_bucket(v.buckets, c.instance_type) {
        lemma_bucket_inside(v.buckets, v.slots.len() as int, bucket_index(v.buckets, c.instance_type));
    }
}

/// The counters never go back: an allocation leaves the high-water mark
/// and the number of allocations where they are or raises them, and it
/// raises the number of allocations exactly when it succeeds. No slot
/// leaves the dirty queue.
pub proof fn theorem_counters_monotonic(v: TableView, c: Instance)
    requires
        view_wf(v),
    ensures
        add_view(v, c).high_watermark >= v.high_watermark,
        add_view(v, c).total_added == v.total_added + if add_result(v, c) is Ok {
            1int
        } else {
            0int
        },
        v.dirty.subset_of(add_view(v, c).dirty),
        add_result(v, c) is Err ==> add_view(v, c) == v,
{
}

/// Queueing a slot that is already queued changes nothing, so any number of
/// updates of one slot leaves it queued once.
pub proof fn theorem_update_idempotent(v: TableView, index: int)
    ensures
        update_view(update_view(v, index), index) == update_view(v, index),
        0 <= index < v.slots.len() ==> update_view(v, index).dirty.contains(index),
        v.dirty.contains(index) ==> update_view(v, index) == v,
{
    assert(update_view(update_view(v, index), index).dirty =~= update_view(v, index).dirty);
    if v.dirty.contains(index) {
        assert(update_view(v, index).dirty =~= v.dirty);
    }
}

} // verus!
