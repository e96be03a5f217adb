//! Process-wide envelope id allocation.
//!
//! Every envelope carries a numeric id used for deduplication and tracing.
//! Ids come from a single monotonic counter; the host keeps one allocator per
//! process, so two envelopes built within one process never share an id.

use vstd::prelude::*;

verus! {

/// The monotonic id counter. The next id to hand out is `next`; every id
/// strictly below it has already been issued.
pub struct IdAllocator {
    next: u64,
}

impl IdAllocator {
    /// The ids this allocator has already handed out.
    pub closed spec fn issued(self) -> Set<u64> {
        Set::new(|id: u64| id < self.next)
    }

    /// The next id the allocator will hand out.
    pub closed spec fn spec_next(self) -> u64 {
        self.next
    }

    pub fn new() -> (r: IdAllocator)
        ensures
            r.spec_next() == 0,
            r.issued() == Set::<u64>::empty(),
    {
        let r = IdAllocator { next: 0 };
        proof {
            assert(r.issued() =~= Set::<u64>::empty());
        }
        r
    }
}

/// Hands out the next id and advances the counter.
pub fn get_next(ids: &mut IdAllocator) -> (r: u64)
    requires
        old(ids).spec_next() < u64::MAX,
    ensures
        r == old(ids).spec_next(),
        final(ids).spec_next() == old(ids).spec_next() + 1,
        !old(ids).issued().contains(r),
        final(ids).issued() == old(ids).issued().insert(r),
{
    let r = ids.next;
    ids.next = ids.next + 1;
    proof {
        assert(ids.issued() =~= old(ids).issued().insert(r));
    }
    r
}

/// Ids never repeat: an id issued at some point is distinct from any id that
/// a later allocator state has yet to issue. In particular, two envelopes
/// created in sequence within one process carry distinct ids.
pub proof fn lemma_ids_distinct(early: IdAllocator, late: IdAllocator, i: u64, j: u64)
    requires
        early.issued().contains(i),
        !late.issued().contains(j),
        early.spec_next() <= late.spec_next(),
    ensures
        i != j,
{
}

} // verus!
