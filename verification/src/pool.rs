//! A reusable pool of fixed-size read buffers, indexed by a stable integer
//! handle.
//!
//! A buffer is either *checked out* (owned by an in-flight request) or *free*
//! (owned by the pool). The handle lets an in-flight request be correlated
//! with its buffer across threads while the buffer itself moves with the
//! request; an index is never handed out twice without an intervening
//! release.

use vstd::prelude::*;

use crate::aligned::AlignedBuf;

verus! {

pub struct BufPool {
    /// Length of every buffer this pool hands out.
    bs: usize,
    /// Indices handed out so far; valid handles are `0 .. n_slots`.
    n_slots: usize,
    /// Handles currently free, each paired positionally with a buffer in
    /// `spare`.
    free: Vec<usize>,
    /// Buffers owned by the pool, ready for reuse.
    spare: Vec<AlignedBuf>,
}

impl BufPool {
    /// Internal consistency: the free list names distinct valid handles and
    /// holds exactly one stored buffer, of the right length, per entry.
    pub closed spec fn wf(self) -> bool {
        &&& 1 <= self.bs
        &&& self.bs + self.bs <= usize::MAX
        &&& self.free@.no_duplicates()
        &&& forall|k: int|
            0 <= k < self.free@.len() ==> self.free@[k] < self.n_slots
        &&& self.spare@.len() == self.free@.len()
        &&& forall|k: int|
            0 <= k < self.spare@.len() ==> (#[trigger] self.spare@[k]).wf() && self.spare@[k]@.len()
                == self.bs
    }

    /// The handles currently checked out.
    pub closed spec fn live(self) -> Set<usize> {
        Set::new(|i: usize| i < self.n_slots && !self.free@.contains(i))
    }

    /// Length of every buffer this pool hands out.
    pub closed spec fn block_size(self) -> usize {
        self.bs
    }

    /// Number of handles this pool has ever handed out.
    pub closed spec fn slot_count(self) -> usize {
        self.n_slots
    }

    pub fn new(bs: usize) -> (r: BufPool)
        requires
            1 <= bs,
            bs + bs <= usize::MAX,
        ensures
            r.wf(),
            r.block_size() == bs,
            r.live() == Set::<usize>::empty(),
    {
        let r = BufPool { bs, n_slots: 0, free: Vec::new(), spare: Vec::new() };
        proof {
            assert(r.live() =~= Set::<usize>::empty());
        }
        r
    }

    /// What `checkout` does to the pool: the returned handle was not live
    /// before the call and is live after it, and nothing else changes.
    pub open spec fn checkout_post(pre: BufPool, post: BufPool, idx: usize) -> bool {
        &&& !pre.live().contains(idx)
        &&& post.live() == pre.live().insert(idx)
        &&& post.block_size() == pre.block_size()
    }

    /// Pops a free handle if one exists, else mints the next handle with a
    /// fresh zero-filled buffer aligned to the block size. A reused buffer
    /// keeps whatever bytes its previous holder left in it.
    pub fn checkout(&mut self) -> (r: (usize, AlignedBuf))
        requires
            old(self).wf(),
            old(self).slot_count() < usize::MAX,
        ensures
            final(self).wf(),
            Self::checkout_post(*old(self), *final(self), r.0),
            r.1.wf(),
            r.1@.len() == old(self).block_size(),
            r.0 <= old(self).slot_count(),
            r.0 == old(self).slot_count() ==> {
                &&& final(self).slot_count() == old(self).slot_count() + 1
                &&& forall|k: int| 0 <= k < r.1@.len() ==> r.1@[k] == 0u8
            },
            r.0 != old(self).slot_count() ==> final(self).slot_count() == old(self).slot_count(),
    {
        match self.free.pop() {
            Some(idx) => {
                let buf = match self.spare.pop() {
                    Some(b) => b,
                    None => {
                        proof {
                            assert(false);
                        }
                        AlignedBuf::zeroed(0, 1)
                    },
                };
                proof {
                    let pre = *old(self);
                    assert(pre.free@ =~= self.free@.push(idx));
                    assert(pre.free@.no_duplicates());
                    assert(forall|i: usize|
                        self.free@.contains(i) ==> pre.free@.contains(i));
                    assert(!self.free@.contains(idx)) by {
                        if self.free@.contains(idx) {
                            let k = choose|k: int|
                                0 <= k < self.free@.len() && self.free@[k] == idx;
                            assert(pre.free@[k] == idx);
                            assert(pre.free@[pre.free@.len() - 1] == idx);
                        }
                    }
                    assert(self.live() =~= pre.live().insert(idx));
                }
                (idx, buf)
            },
            None => {
                let idx = self.n_slots;
                self.n_slots = self.n_slots + 1;
                let buf = AlignedBuf::zeroed(self.bs, self.bs);
                proof {
                    let pre = *old(self);
                    assert(pre.free@.len() == 0);
                    assert(self.live() =~= pre.live().insert(idx));
                }
                (idx, buf)
            },
        }
    }

    /// Length of the buffers this pool hands out.
    pub fn buf_len(&self) -> (r: usize)
        ensures
            r == self.block_size(),
    {
        self.bs
    }

    /// Number of handles this pool has ever handed out.
    pub fn slots(&self) -> (r: usize)
        ensures
            r == self.slot_count(),
    {
        self.n_slots
    }

    /// Computes whether a handle is currently checked out.
    pub fn is_live(&self, index: usize) -> (r: bool)
        requires
            self.wf(),
        ensures
            r == self.live().contains(index),
    {
        if index >= self.n_slots {
            return false;
        }
        let n = self.free.len();
        let mut j: usize = 0;
        while j < n
            invariant
                n == self.free@.len(),
                0 <= j <= n,
                forall|k: int| 0 <= k < j ==> self.free@[k] != index,
            decreases n - j,
        {
            if self.free[j] == index {
                return false;
            }
            j = j + 1;
        }
        proof {
            assert(!self.free@.contains(index));
        }
        true
    }

    /// Returns a handle and its buffer to the pool. The caller must hold the
    /// handle live, which is exactly the guarantee that the corresponding
    /// request has been retired and consumed.
    pub fn release(&mut self, index: usize, buf: AlignedBuf)
        requires
            old(self).wf(),
            old(self).live().contains(index),
            buf.wf(),
            buf@.len() == old(self).block_size(),
        ensures
            final(self).wf(),
            final(self).live() == old(self).live().remove(index),
            final(self).block_size() == old(self).block_size(),
            final(self).slot_count() == old(self).slot_count(),
    {
        self.free.push(index);
        self.spare.push(buf);
        proof {
            let pre = *old(self);
            assert(!pre.free@.contains(index));
            assert(self.free@ =~= pre.free@.push(index));
            assert forall|i: usize| #[trigger] self.free@.contains(i) implies (pre.free@.contains(
                i,
            ) || i == index) by {
                let k = choose|k: int| 0 <= k < self.free@.len() && self.free@[k] == i;
                if k < pre.free@.len() {
                    assert(pre.free@[k] == i);
                }
            }
            assert forall|i: usize| pre.free@.contains(i) implies self.free@.contains(i) by {
                let k = choose|k: int| 0 <= k < pre.free@.len() && pre.free@[k] == i;
                assert(self.free@[k] == i);
            }
            assert(self.free@[pre.free@.len() as int] == index);
            assert(self.free@.contains(index));
            assert(self.live() =~= pre.live().remove(index));
        }
    }
}

/// Two checkouts with no release in between always return distinct handles:
/// a live handle is never handed out again.
pub proof fn lemma_no_double_checkout(
    p0: BufPool,
    p1: BufPool,
    p2: BufPool,
    i1: usize,
    i2: usize,
)
    requires
        BufPool::checkout_post(p0, p1, i1),
        BufPool::checkout_post(p1, p2, i2),
    ensures
        i1 != i2,
{
    assert(p1.live().contains(i1));
}

/// Every live handle lies below the pool's slot count.
pub proof fn lemma_live_below_slots(p: BufPool)
    ensures
        forall|i: usize| p.live().contains(i) ==> i < p.slot_count(),
{
}

} // verus!
