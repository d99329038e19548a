use vstd::prelude::*;

verus! {

/// Why an allocator bookkeeping step was refused.
#[derive(Clone, Copy, PartialEq, Eq, Structural, Debug)]
pub enum AllocatorError {
    /// Every allocation identifier has been used.
    Exhausted,
    /// No live allocation has this identifier (it was never made, or it was
    /// already freed).
    UnknownAllocation,
}

/// The bookkeeping of the device-memory allocator: which allocations are
/// live. Every allocation must be freed exactly once before the allocator
/// is torn down.
pub struct AllocationLedger {
    pub live: Vec<u64>,
    pub next_id: u64,
}

impl AllocationLedger {
    pub open spec fn wf(&self) -> bool {
        &&& self.live@.no_duplicates()
        &&& forall|i: int| 0 <= i < self.live@.len() ==> #[trigger] self.live@[i] < self.next_id
    }

    /// The identifiers of the live allocations.
    pub open spec fn live_set(&self) -> Set<u64> {
        self.live@.to_set()
    }

    pub fn new() -> (r: AllocationLedger)
        ensures
            r.wf(),
            r.live_set() == Set::<u64>::empty(),
    {
        let r = AllocationLedger { live: Vec::new(), next_id: 0 };
        assert(r.live_set() =~= Set::<u64>::empty());
        r
    }

    /// Records a new allocation and returns its identifier, which differs from
    /// every live one.
    pub fn record_allocation(&mut self) -> (r: Result<u64, AllocatorError>)
        requires
            old(self).wf(),
        ensures
            final(self).wf(),
            match r {
                Ok(id) => {
                    &&& !old(self).live_set().contains(id)
                    &&& final(self).live_set() == old(self).live_set().insert(id)
                },
                Err(e) => {
                    &&& e == AllocatorError::Exhausted
                    &&& old(self).next_id == u64::MAX
                    &&& final(self).live_set() == old(self).live_set()
                },
            },
    {
        if self.next_id == u64::MAX {
            return Err(AllocatorError::Exhausted);
        }
        let id = self.next_id;
        let ghost before = self.live@;
        assert(!before.contains(id)) by {
            if before.contains(id) {
                let i = choose|i: int| 0 <= i < before.len() && before[i] == id;
                assert(before[i] < self.next_id);
            }
        }
        self.live.push(id);
        self.next_id = id + 1;
        assert(self.live@ == before.push(id));
        proof {
            before.lemma_push_to_set_commute(id);
        }
        assert(self.live_set() =~= before.to_set().insert(id));
        assert forall|i: int| 0 <= i < self.live@.len() implies #[trigger] self.live@[i] < self.next_id by {
            if i < before.len() {
                assert(self.live@[i] == before[i]);
            }
        }
        assert forall|a: int, b: int| 0 <= a < self.live@.len() && 0 <= b < self.live@.len() && a != b
            implies self.live@[a] != self.live@[b] by {
            if a == before.len() {
                assert(before[b] < id);
            } else if b == before.len() {
                assert(before[a] < id);
            }
        }
        Ok(id)
    }

    /// Records that allocation `id` was freed. Freeing an allocation that is
    /// not live is refused and changes nothing.
    pub fn record_free(&mut self, id: u64) -> (r: Result<(), AllocatorError>)
        requires
            old(self).wf(),
        ensures
            final(self).wf(),
            old(self).live_set().contains(id) ==> {
                &&& r is Ok
                &&& final(self).live_set() == old(self).live_set().remove(id)
            },
            !old(self).live_set().contains(id) ==> {
                &&& r == Err::<(), AllocatorError>(AllocatorError::UnknownAllocation)
                &&& final(self).live_set() == old(self).live_set()
            },
    {
        let mut i: usize = 0;
        while i < self.live.len()
            invariant
                0 <= i <= self.live.len(),
                self.live@ == old(self).live@,
                self.wf(),
                self.next_id == old(self).next_id,
                forall|j: int| 0 <= j < i ==> self.live@[j] != id,
            decreases self.live.len() - i,
        {
            if self.live[i] == id {
                let ghost before = self.live@;
                assert(before[i as int] == id);
                self.live.remove(i);
                assert(self.live@ == before.remove(i as int));
                assert forall|x: u64| self.live@.contains(x) <==> (before.contains(x) && x != id) by {
                    if self.live@.contains(x) {
                        let k = choose|k: int| 0 <= k < self.live@.len() && self.live@[k] == x;
                        if k < i {
                            assert(before[k] == x);
                            assert(k != i as int);
                        } else {
                            assert(before[k + 1] == x);
                            assert(k + 1 != i as int);
                        }
                    }
                    if before.contains(x) && x != id {
                        let k = choose|k: int| 0 <= k < before.len() && before[k] == x;
                        assert(k != i as int);
                        if k < i {
                            assert(self.live@[k] == x);
                        } else {
                            assert(self.live@[k - 1] == x);
                        }
                    }
                }
                assert(self.live_set() =~= before.to_set().remove(id));
                assert forall|a: int| 0 <= a < self.live@.len() implies #[trigger] self.live@[a] < self.next_id by {
                    if a < i {
                        assert(self.live@[a] == before[a]);
                    } else {
                        assert(self.live@[a] == before[a + 1]);
                    }
                }
                assert forall|a: int, b: int| 0 <= a < self.live@.len() && 0 <= b < self.live@.len() && a != b
                    implies self.live@[a] != self.live@[b] by {
                    let pa = if a < i { a } else { a + 1 };
                    let pb = if b < i { b } else { b + 1 };
                    assert(self.live@[a] == before[pa]);
                    assert(self.live@[b] == before[pb]);
                }
                return Ok(());
            }
            i += 1;
        }
        assert(!self.live@.contains(id));
        Err(AllocatorError::UnknownAllocation)
    }

    /// Every allocation has been freed: the allocator may be torn down.
    pub fn is_balanced(&self) -> (r: bool)
        requires
            self.wf(),
        ensures
            r == (self.live_set() == Set::<u64>::empty()),
    {
        if self.live.len() == 0 {
            assert(self.live_set() =~= Set::<u64>::empty());
            true
        } else {
            assert(self.live_set().contains(self.live@[0]));
            false
        }
    }
}

} // verus!
