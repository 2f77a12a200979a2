//! The fixed-capacity instance table: a bump allocator that gives every
//! instance type one contiguous bucket of slots.

use std::collections::HashMap;
use vstd::prelude::*;
use crate::dirty_queue::DirtyQueue;
use crate::instance::{Instance, InstanceType, Position, Rotation, MAX_INSTANCES};
use crate::table_model::{
    add_result, add_target, add_view, bucket_index, bucket_ok, buckets_end, has_bucket,
    lemma_add_preserves_wf, lemma_bucket_index, lemma_bucket_inside, lemma_occupied_bounds,
    slot_ok, update_view, view_wf, Bucket, TableError, TableView,
};

verus! {

broadcast use vstd::std_specs::hash::group_hash_axioms;

/// The largest table: slot indices are 32-bit on the device.
pub const MAX_CAPACITY: usize = 0xFFFF_FFFF;

/// Where a candidate goes: its slot and the bucket the slot belongs to.
pub struct Placement {
    pub slot: usize,
    pub start: usize,
    pub capacity: usize,
    /// Whether the bucket is created by this allocation.
    pub fresh: bool,
}

impl Placement {
    /// Whether this placement puts a candidate into bucket `b`, as `b` is
    /// after the allocation.
    pub open spec fn fills(self, b: Bucket) -> bool {
        &&& self.slot == b.top()
        &&& self.start == b.start
        &&& self.capacity == b.capacity
    }
}

/// The instance table.
pub struct InstanceHandler {
    instances: Vec<Instance>,
    instance_changes: DirtyQueue,
    max_allowed_sizes: HashMap<u32, usize>,
    max_index: usize,
    total_added: usize,
    buckets: Ghost<Seq<Bucket>>,
}

impl InstanceHandler {
    /// The table as a mathematical value.
    pub closed spec fn view(&self) -> TableView {
        TableView {
            slots: self.instances@,
            buckets: self.buckets@,
            dirty: self.instance_changes@,
            high_watermark: self.max_index as int,
            total_added: self.total_added as int,
        }
    }

    /// The part of the invariant that the view does not show.
    pub closed spec fn inner_wf(&self) -> bool {
        &&& self.instance_changes.wf()
        &&& self.instance_changes.limit() == self.instances@.len()
        &&& registry_ok(self.max_allowed_sizes@, self.buckets@)
    }

    /// The table invariant.
    pub open spec fn wf(&self) -> bool {
        &&& view_wf(self@)
        &&& self@.slots.len() <= MAX_CAPACITY
        &&& self.inner_wf()
    }

    /// The view of a table of `capacity` free slots.
    pub open spec fn empty_view(capacity: int) -> TableView {
        TableView {
            slots: Seq::new(capacity as nat, |i: int| Instance::spec_empty()),
            buckets: Seq::empty(),
            dirty: Set::empty(),
            high_watermark: 0,
            total_added: 0,
        }
    }

    /// Builds a table of `MAX_INSTANCES` free slots.
    pub fn new() -> (r: InstanceHandler)
        ensures
            r.wf(),
            r@ == Self::empty_view(MAX_INSTANCES as int),
    {
        Self::with_capacity(MAX_INSTANCES)
    }

    /// Builds a table of `capacity` free slots.
    pub fn with_capacity(capacity: usize) -> (r: InstanceHandler)
        requires
            capacity <= MAX_CAPACITY,
        ensures
            r.wf(),
            r@ == Self::empty_view(capacity as int),
    {
        let mut instances: Vec<Instance> = Vec::new();
        let mut i: usize = 0;
        while i < capacity
            invariant
                i <= capacity,
                instances@.len() == i,
                forall|j: int| 0 <= j < i ==> instances@[j] == Instance::spec_empty(),
            decreases capacity - i,
        {
            instances.push(Instance::empty());
            i += 1;
        }
        let r = InstanceHandler {
            instances,
            instance_changes: DirtyQueue::new(capacity),
            max_allowed_sizes: HashMap::new(),
            max_index: 0,
            total_added: 0,
            buckets: Ghost(Seq::empty()),
        };
        proof {
            assert(r@.slots =~= Self::empty_view(capacity as int).slots);
        }
        r
    }

    /// The number of slots.
    pub fn capacity(&self) -> (r: usize)
        ensures
            r == self@.slots.len(),
    {
        self.instances.len()
    }

    /// The highest slot ever filled, `0` while nothing was added.
    pub fn high_watermark(&self) -> (r: usize)
        ensures
            r == self@.high_watermark,
    {
        self.max_index
    }

    /// The number of successful allocations.
    pub fn total_added(&self) -> (r: usize)
        ensures
            r == self@.total_added,
    {
        self.total_added
    }

    /// The capacity registered for `kind`: that of its bucket, once the
    /// first allocation of the type has succeeded.
    pub fn registered_capacity(&self, kind: InstanceType) -> (r: Option<usize>)
        requires
            self.wf(),
        ensures
            r == if has_bucket(self@.buckets, kind) {
                Some(self@.buckets[bucket_index(self@.buckets, kind)].capacity as usize)
            } else {
                None
            },
    {
        proof {
            let bs = self.buckets@;
            let cap = self.instances@.len() as int;
            if has_bucket(bs, kind) {
                let k = bucket_index(bs, kind);
                assert(registered(self.max_allowed_sizes@, bs, k));
            }
            if self.max_allowed_sizes@.contains_key(kind.spec_id()) {
                let k = choose|k: int|
                    0 <= k < bs.len() && (#[trigger] bs[k]).kind.spec_id() == kind.spec_id();
                lemma_bucket_index(bs, cap, k);
            }
        }
        match self.max_allowed_sizes.get(&kind.id()) {
            Some(size) => Some(*size),
            None => None,
        }
    }

    /// Whether slot `index` awaits synchronization.
    pub fn is_dirty(&self, index: usize) -> (r: bool)
        ensures
            r == self@.dirty.contains(index as int),
    {
        self.instance_changes.contains(index)
    }

    /// A copy of the record in slot `index`, or `None` past the table's end.
    pub fn record(&self, index: usize) -> (r: Option<Instance>)
        ensures
            r == if index < self@.slots.len() {
                Some(self@.slots[index as int])
            } else {
                None
            },
    {
        if index < self.instances.len() {
            Some(self.instances[index])
        } else {
            None
        }
    }

    /// Hands out the record in slot `index` for mutation in place.
    ///
    /// The table is the old table with that slot holding whatever the caller
    /// leaves in the record. The invariant survives every write that keeps
    /// the record's type and bookkeeping, that is, one that changes position
    /// and rotation only. The slot is not queued for synchronization: call
    /// `update` after the write.
    pub fn get(&mut self, index: usize) -> (r: Result<&mut Instance, TableError>)
        ensures
            index < old(self)@.slots.len() ==> r is Ok,
            index < old(self)@.slots.len() ==> *r->Ok_0 == old(self)@.slots[index as int],
            index < old(self)@.slots.len() ==> final(self)@ == Self::with_slot(
                old(self)@,
                index as int,
                *final(r->Ok_0),
            ),
            index < old(self)@.slots.len() && old(self).wf() && old(self)@.slots[index as int].same_bookkeeping(
                *final(r->Ok_0),
            ) ==> final(self).wf(),
            index >= old(self)@.slots.len() ==> r is Err && r->Err_0 == TableError::IndexOutOfRange
                && final(self)@ == old(self)@ && (old(self).wf() ==> final(self).wf()),
    {
        if index < self.instances.len() {
            proof {
                let v = self@;
                assert forall|rec: Instance|
                    view_wf(v) && v.slots[index as int].same_bookkeeping(rec) implies view_wf(
                    TableView { slots: #[trigger] v.slots.update(index as int, rec), ..v },
                ) by {
                    lemma_write_preserves_wf(v, index as int, rec);
                }
            }
            Ok(&mut self.instances[index])
        } else {
            Err(TableError::IndexOutOfRange)
        }
    }

    /// Overwrites position and rotation of the record in slot `index` and
    /// leaves its type and bookkeeping alone, so the invariant is kept
    /// whatever is written. The slot is not queued for synchronization: call
    /// `update` after the write.
    pub fn set_transform(&mut self, index: usize, position: Position, rotation: Rotation) -> (r:
        Result<(), TableError>)
        requires
            old(self).wf(),
        ensures
            final(self).wf(),
            index < old(self)@.slots.len() ==> r is Ok && final(self)@ == Self::with_slot(
                old(self)@,
                index as int,
                Instance { position, rotation, ..old(self)@.slots[index as int] },
            ),
            index >= old(self)@.slots.len() ==> r == Err::<(), TableError>(
                TableError::IndexOutOfRange,
            ) && final(self)@ == old(self)@,
    {
        if index < self.instances.len() {
            let record = self.instances[index];
            let moved = Instance { position, rotation, ..record };
            proof {
                lemma_write_preserves_wf(self@, index as int, moved);
            }
            self.instances[index] = moved;
            Ok(())
        } else {
            Err(TableError::IndexOutOfRange)
        }
    }

    /// Scans the slots from `start_index` up to, not including, `limit` or
    /// the table's end, whichever comes first, for the first free one.
    pub fn find_open_slot(&self, start_index: usize, limit: usize) -> (r: Option<usize>)
        ensures
            match r {
                Some(i) => {
                    &&& start_index <= i < limit
                    &&& i < self@.slots.len()
                    &&& self@.slots[i as int].instance_type == InstanceType::Empty
                    &&& forall|j: int|
                        start_index <= j < i ==> (#[trigger] self@.slots[j]).instance_type
                            != InstanceType::Empty
                },
                None => forall|j: int|
                    start_index <= j < limit && j < self@.slots.len() ==> (
                    #[trigger] self@.slots[j]).instance_type != InstanceType::Empty,
            },
    {
        let mut offset: usize = start_index;
        while offset < limit && offset < self.instances.len()
            invariant
                start_index <= offset,
                forall|j: int|
                    start_index <= j < offset ==> (#[trigger] self.instances@[j]).instance_type
                        != InstanceType::Empty,
            decreases self.instances@.len() - offset,
        {
            if self.instances[offset].instance_type == InstanceType::Empty {
                return Some(offset);
            }
            offset += 1;
        }
        None
    }

    /// Finds the bucket for a candidate of type `kind` that declares
    /// `declared` slots, and the slot in it that the candidate gets.
    ///
    /// The walk starts at slot `0` and steps from bucket to bucket by the
    /// registered capacities. A free slot at a bucket boundary begins a new
    /// bucket; a bucket of the candidate's type is scanned for its first free
    /// slot.
    pub fn find_offset(&self, kind: InstanceType, declared: usize) -> (r: Option<Placement>)
        requires
            self.wf(),
        ensures
            match r {
                Some(p) => {
                    &&& add_target(self@, kind, declared as int) is Some
                    &&& p.fills(add_target(self@, kind, declared as int)->0)
                    &&& p.fresh == !has_bucket(self@.buckets, kind)
                },
                None => add_target(self@, kind, declared as int) is None,
            },
    {
        if kind == InstanceType::Empty {
            return None;
        }
        let ghost bs = self.buckets@;
        let ghost cap = self.instances@.len() as int;
        let mut offset: usize = 0;
        let ghost mut k: int = 0;
        proof {
            lemma_occupied_bounds(bs, cap);
            if bs.len() > 0 {
                assert(bucket_ok(bs, 0, cap));
            }
        }
        loop
            invariant
                self.wf(),
                bs == self.buckets@,
                cap == self.instances@.len(),
                kind != InstanceType::Empty,
                0 <= k <= bs.len(),
                offset == if k < bs.len() { bs[k].start } else { buckets_end(bs) },
                offset <= cap,
                forall|j: int| 0 <= j < k ==> (#[trigger] bs[j]).kind != kind,
            decreases bs.len() - k,
        {
            proof {
                if k < bs.len() {
                    lemma_bucket_inside(bs, cap, k);
                    lemma_bucket_index(bs, cap, k);
                    assert(bucket_ok(bs, k, cap));
                    assert(slot_ok(self@.slots, bs, k, offset as int));
                    assert(registered(self.max_allowed_sizes@, bs, k));
                }
            }
            if offset >= self.instances.len() {
                return None;
            }
            let found = self.instances[offset].instance_type;
            if found == InstanceType::Empty {
                if declared >= 1 && declared <= self.instances.len() - offset {
                    return Some(
                        Placement { slot: offset, start: offset, capacity: declared, fresh: true },
                    );
                }
                return None;
            }
            let reserved = match self.max_allowed_sizes.get(&found.id()) {
                Some(size) => *size,
                None => {
                    return None;
                },
            };
            if found == kind {
                return match self.find_open_slot(offset, offset + reserved) {
                    Some(slot) => {
                        proof {
                            assert(slot_ok(self@.slots, bs, k, slot as int));
                            if slot > bs[k].top() + 1 {
                                assert(slot_ok(self@.slots, bs, k, bs[k].top() + 1));
                            }
                        }
                        Some(Placement { slot, start: offset, capacity: reserved, fresh: false })
                    },
                    None => {
                        proof {
                            if bs[k].len < bs[k].capacity {
                                assert(slot_ok(self@.slots, bs, k, bs[k].top() + 1));
                            }
                        }
                        None
                    },
                };
            }
            proof {
                if k + 1 < bs.len() {
                    assert(bucket_ok(bs, k + 1, cap));
                }
                k = k + 1;
            }
            offset += reserved;
        }
    }

    /// Allocates a slot for `instance` in the bucket of its type.
    ///
    /// The candidate's `max_allowed` declares the capacity of its type's
    /// bucket; it counts only when the bucket is created. On success the
    /// record is stored with its slot, bucket start and bucket capacity
    /// stamped on it, the slot is queued for synchronization, and the slot
    /// index is returned. On failure nothing changes.
    pub fn add(&mut self, instance: Instance) -> (r: Result<usize, TableError>)
        requires
            old(self).wf(),
        ensures
            final(self).wf(),
            r == add_result(old(self)@, instance),
            final(self)@ == add_view(old(self)@, instance),
    {
        let kind = instance.instance_type;
        let placement = match self.find_offset(kind, instance.max_allowed) {
            Some(p) => p,
            None => {
                return Err(TableError::AllocationFailed(kind));
            },
        };
        let ghost v = self@;
        let ghost w = add_view(v, instance);
        proof {
            lemma_add_preserves_wf(v, instance);
            lemma_occupied_bounds(w.buckets, w.slots.len() as int);
            lemma_occupied_bounds(v.buckets, v.slots.len() as int);
            if !placement.fresh {
                lemma_bucket_inside(v.buckets, v.slots.len() as int, bucket_index(v.buckets, kind));
            }
        }
        if placement.fresh {
            self.max_allowed_sizes.insert(kind.id(), placement.capacity);
        }
        self.instances[placement.slot] = Instance {
            instance_type: kind,
            position: instance.position,
            rotation: instance.rotation,
            start_offset: placement.start,
            array_index: placement.slot,
            max_allowed: placement.capacity,
        };
        let _ = self.instance_changes.mark(placement.slot);
        if placement.slot > self.max_index {
            self.max_index = placement.slot;
        }
        self.total_added += 1;
        proof {
            self.buckets@ = w.buckets;
            assert forall|j: int| 0 <= j < w.buckets.len() implies #[trigger] registered(
                self.max_allowed_sizes@,
                w.buckets,
                j,
            ) by {
                if j < v.buckets.len() {
                    assert(registered(old(self).max_allowed_sizes@, v.buckets, j));
                }
            }
            assert forall|id: u32| #[trigger]
                self.max_allowed_sizes@.contains_key(id) implies has_entry(w.buckets, id) by {
                if old(self).max_allowed_sizes@.contains_key(id) {
                    let j = choose|j: int|
                        0 <= j < v.buckets.len() && (#[trigger] v.buckets[j]).kind.spec_id() == id;
                    assert(w.buckets[j].kind.spec_id() == id);
                }
            }
        }
        Ok(placement.slot)
    }

    /// Queues slot `index` for synchronization; queueing a slot twice is the
    /// same as queueing it once.
    pub fn update(&mut self, index: usize) -> (r: Result<(), TableError>)
        requires
            old(self).wf(),
        ensures
            final(self).wf(),
            final(self)@ == update_view(old(self)@, index as int),
            index < old(self)@.slots.len() ==> r is Ok,
            index >= old(self)@.slots.len() ==> r == Err::<(), TableError>(
                TableError::IndexOutOfRange,
            ),
    {
        if self.instance_changes.mark(index) {
            assert(self@ == update_view(old(self)@, index as int));
            Ok(())
        } else {
            Err(TableError::IndexOutOfRange)
        }
    }

    /// Empties the dirty queue and hands out the slots that were queued,
    /// each exactly once, in no particular order.
    pub fn drain_dirty(&mut self) -> (r: Vec<usize>)
        requires
            old(self).wf(),
        ensures
            final(self).wf(),
            final(self)@ == (TableView { dirty: Set::empty(), ..old(self)@ }),
            r@.no_duplicates(),
            forall|i: int|
                0 <= i < r@.len() ==> (#[trigger] r@[i]) < old(self)@.slots.len()
                    && old(self)@.dirty.contains(r@[i] as int),
            forall|s: int| #[trigger]
                old(self)@.dirty.contains(s) ==> exists|i: int|
                    0 <= i < r@.len() && (#[trigger] r@[i]) as int == s,
    {
        let r = self.instance_changes.drain();
        proof {
            old(self).instance_changes.lemma_in_range();
        }
        r
    }

    /// The view `v` with slot `index` holding `rec`.
    pub open spec fn with_slot(v: TableView, index: int, rec: Instance) -> TableView {
        TableView { slots: v.slots.update(index, rec), ..v }
    }
}

/// The capacity registered for the type of bucket `k` is the bucket's capacity.
pub open spec fn registered(sizes: Map<u32, usize>, bs: Seq<Bucket>, k: int) -> bool {
    let id = bs[k].kind.spec_id();
    sizes.contains_key(id) && sizes[id] as int == bs[k].capacity
}

/// The registry holds the capacity of every bucket under its type, and
/// nothing else.
pub open spec fn registry_ok(sizes: Map<u32, usize>, bs: Seq<Bucket>) -> bool {
    &&& forall|k: int| 0 <= k < bs.len() ==> #[trigger] registered(sizes, bs, k)
    &&& forall|id: u32| #[trigger] sizes.contains_key(id) ==> has_entry(bs, id)
}

/// Some bucket's type has the identifier `id`.
pub open spec fn has_entry(bs: Seq<Bucket>, id: u32) -> bool {
    exists|k: int| 0 <= k < bs.len() && (#[trigger] bs[k]).kind.spec_id() == id
}

/// Overwriting a record with one of the same type and bookkeeping keeps the
/// table invariant.
pub proof fn lemma_write_preserves_wf(v: TableView, index: int, rec: Instance)
    requires
        view_wf(v),
        0 <= index < v.slots.len(),
        v.slots[index].same_bookkeeping(rec),
    ensures
        view_wf(InstanceHandler::with_slot(v, index, rec)),
{
    let w = InstanceHandler::with_slot(v, index, rec);
    lemma_occupied_bounds(v.buckets, v.slots.len() as int);
    assert forall|k: int, i: int|
        0 <= k < w.buckets.len() && w.buckets[k].start <= i < w.buckets[k].end() implies #[trigger] slot_ok(
        w.slots,
        w.buckets,
        k,
        i,
    ) by {
        assert(slot_ok(v.slots, v.buckets, k, i));
        lemma_bucket_inside(v.buckets, v.slots.len() as int, k);
    }
}

} // verus!
