//! The queue of slots that changed since the last synchronization.

use vstd::prelude::*;

verus! {

/// A queue of slot indices in which every index stands at most once.
///
/// Marking a slot that is already queued changes nothing, so a drain hands
/// out each changed slot exactly once.
pub struct DirtyQueue {
    order: Vec<usize>,
    queued: Vec<bool>,
}

impl DirtyQueue {
    /// The set of queued slots.
    pub closed spec fn view(&self) -> Set<int> {
        Set::new(|i: int| 0 <= i < self.queued@.len() && self.queued@[i])
    }

    /// The number of slots the queue tracks.
    pub closed spec fn limit(&self) -> int {
        self.queued@.len() as int
    }

    /// The queue's invariant: the order holds exactly the flagged slots, once each.
    pub closed spec fn wf(&self) -> bool {
        &&& self.order@.no_duplicates()
        &&& forall|j: int|
            0 <= j < self.order@.len() ==> (#[trigger] self.order@[j]) < self.queued@.len()
                && self.queued@[self.order@[j] as int]
        &&& forall|i: int|
            0 <= i < self.queued@.len() && #[trigger] self.queued@[i] ==> self.holds(i)
    }

    /// Whether slot `i` stands in the order.
    closed spec fn holds(&self, i: int) -> bool {
        exists|j: int| 0 <= j < self.order@.len() && (#[trigger] self.order@[j]) as int == i
    }

    /// Every queued slot is below the limit.
    pub proof fn lemma_in_range(&self)
        ensures
            forall|i: int| self@.contains(i) ==> 0 <= i < self.limit(),
    {
    }

    /// Builds an empty queue over `capacity` slots.
    pub fn new(capacity: usize) -> (q: DirtyQueue)
        ensures
            q.wf(),
            q@ == Set::<int>::empty(),
            q.limit() == capacity,
    {
        let mut queued: Vec<bool> = Vec::new();
        let mut i: usize = 0;
        while i < capacity
            invariant
                i <= capacity,
                queued@.len() == i,
                forall|j: int| 0 <= j < i ==> !queued@[j],
            decreases capacity - i,
        {
            queued.push(false);
            i += 1;
        }
        let q = DirtyQueue { order: Vec::new(), queued };
        q
    }

    /// Whether slot `index` is queued.
    pub fn contains(&self, index: usize) -> (r: bool)
        ensures
            r == self@.contains(index as int),
    {
        index < self.queued.len() && self.queued[index]
    }

    /// Queues slot `index` unless it is queued already, and says whether
    /// the slot is one the queue tracks; a slot at or beyond the limit is
    /// not queued.
    pub fn mark(&mut self, index: usize) -> (known: bool)
        requires
            old(self).wf(),
        ensures
            final(self).wf(),
            known == (index < old(self).limit()),
            final(self)@ == if known {
                old(self)@.insert(index as int)
            } else {
                old(self)@
            },
            final(self).limit() == old(self).limit(),
    {
        if index >= self.queued.len() {
            return false;
        }
        if !self.queued[index] {
            self.queued[index] = true;
            self.order.push(index);
            proof {
                let before = old(self).order@;
                assert forall|i: int|
                    0 <= i < self.queued@.len() && #[trigger] self.queued@[i] implies self.holds(
                    i,
                ) by {
                    if i == index as int {
                        assert(self.order@[before.len() as int] as int == i);
                    } else {
                        let j = choose|j: int|
                            0 <= j < before.len() && (#[trigger] before[j]) as int == i;
                        assert(self.order@[j] as int == i);
                    }
                }
            }
        }
        assert(self@ =~= old(self)@.insert(index as int));
        true
    }

    /// Empties the queue and hands out the slots that were queued, each once,
    /// in no particular order.
    pub fn drain(&mut self) -> (r: Vec<usize>)
        requires
            old(self).wf(),
        ensures
            final(self).wf(),
            final(self)@ == Set::<int>::empty(),
            final(self).limit() == old(self).limit(),
            r@.no_duplicates(),
            forall|i: int| 0 <= i < r@.len() ==> old(self)@.contains(#[trigger] r@[i] as int),
            forall|s: int| #[trigger]
                old(self)@.contains(s) ==> exists|i: int|
                    0 <= i < r@.len() && (#[trigger] r@[i]) as int == s,
    {
        let mut drained: Vec<usize> = Vec::new();
        core::mem::swap(&mut self.order, &mut drained);
        let mut j: usize = 0;
        while j < drained.len()
            invariant
                j <= drained@.len(),
                drained@ == old(self).order@,
                drained@.no_duplicates(),
                self.order@.len() == 0,
                self.queued@.len() == old(self).queued@.len(),
                forall|a: int|
                    0 <= a < drained@.len() ==> (#[trigger] drained@[a]) < self.queued@.len(),
                forall|a: int| j <= a < drained@.len() ==> self.queued@[#[trigger] drained@[a] as int],
                forall|i: int|
                    0 <= i < self.queued@.len() && #[trigger] self.queued@[i] ==> exists|a: int|
                        j <= a < drained@.len() && (#[trigger] drained@[a]) as int == i,
            decreases drained@.len() - j,
        {
            let slot = drained[j];
            self.queued[slot] = false;
            j += 1;
        }
        drained
    }
}

} // verus!
