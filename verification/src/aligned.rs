//! An owned byte buffer whose payload window starts at an address aligned
//! to a chosen boundary, as direct (cache-bypassing) I/O requires.
//!
//! The backing allocation is over-sized by the alignment and the window is
//! placed at the first aligned address inside it. Alignment is a property
//! of runtime addresses and so lives outside the verified model; what is
//! verified is the window bookkeeping: its placement inside the
//! allocation, its length, and its contents. The window must never be
//! re-allocated after placement, so the backing vector's length is fixed
//! for the buffer's lifetime.

use vstd::prelude::*;

verus! {

/// Relies on Vec::as_ptr for the buffer's address: the returned offset,
/// added to that address, lands on a multiple of `align`. The result
/// depends on where the allocator placed the buffer, so nothing more than
/// its range is stated.
#[verifier::external_body]
fn align_start(v: &Vec<u8>, align: usize) -> (r: usize)
    requires
        align >= 1,
    ensures
        r < align,
{
    let addr = v.as_ptr() as usize;
    (align - (addr % align)) % align
}

/// A fixed-size byte buffer inside an over-sized allocation, placed so
/// that the window `data[start .. start + len]` starts at an address
/// aligned to the boundary the buffer was created with.
#[derive(Debug)]
pub struct AlignedBuf {
    /// The backing allocation. Its length must never change: growing it
    /// could move the allocation and lose the alignment.
    pub data: Vec<u8>,
    /// Index of the first window byte inside `data`.
    pub start: usize,
    /// Length of the window.
    pub len: usize,
}

impl View for AlignedBuf {
    type V = Seq<u8>;

    open spec fn view(&self) -> Seq<u8> {
        Seq::new(self.len as nat, |i: int| self.data@[self.start + i])
    }
}

impl AlignedBuf {
    /// The window lies inside the backing allocation.
    pub open spec fn wf(self) -> bool {
        self.start + self.len <= self.data@.len()
    }

    /// A zero-filled buffer of `len` bytes, aligned to `align`.
    pub fn zeroed(len: usize, align: usize) -> (r: AlignedBuf)
        requires
            align >= 1,
            len + align <= usize::MAX,
        ensures
            r.wf(),
            r@.len() == len,
            forall|i: int| 0 <= i < len ==> r@[i] == 0u8,
    {
        let total = len + align;
        let mut data: Vec<u8> = Vec::new();
        let mut j: usize = 0;
        while j < total
            invariant
                0 <= j <= total,
                data@.len() == j,
                forall|k: int| 0 <= k < j ==> data@[k] == 0u8,
            decreases total - j,
        {
            data.push(0u8);
            j = j + 1;
        }
        let start = align_start(&data, align);
        AlignedBuf { data, start, len }
    }

    /// A buffer aligned to `align` holding a copy of the given bytes.
    pub fn from_bytes(src: &Vec<u8>, align: usize) -> (r: AlignedBuf)
        requires
            align >= 1,
            src@.len() + align <= usize::MAX,
        ensures
            r.wf(),
            r@ == src@,
    {
        let n = src.len();
        let mut r = AlignedBuf::zeroed(n, align);
        let mut j: usize = 0;
        while j < n
            invariant
                r.wf(),
                n == src@.len(),
                r@.len() == n,
                0 <= j <= n,
                forall|k: int| 0 <= k < j ==> r@[k] == src@[k],
            decreases n - j,
        {
            let b = src[j];
            r.set(j, b);
            j = j + 1;
        }
        proof {
            assert(r@ =~= src@);
        }
        r
    }

    /// Length of the window.
    pub fn len(&self) -> (r: usize)
        ensures
            r == self@.len(),
    {
        self.len
    }

    /// Computes whether the window lies inside the backing allocation; a
    /// buffer that came back over a channel is checked with this before
    /// its contents are trusted.
    pub fn is_wf(&self) -> (r: bool)
        ensures
            r == self.wf(),
    {
        self.start <= self.data.len() && self.len <= self.data.len() - self.start
    }

    /// The `i`-th window byte.
    pub fn get(&self, i: usize) -> (r: u8)
        requires
            self.wf(),
            i < self@.len(),
        ensures
            r == self@[i as int],
    {
        let n = self.data.len();
        self.data[self.start + i]
    }

    /// Overwrites the `i`-th window byte.
    pub fn set(&mut self, i: usize, b: u8)
        requires
            old(self).wf(),
            i < old(self)@.len(),
        ensures
            final(self).wf(),
            final(self)@ == old(self)@.update(i as int, b),
            final(self).start == old(self).start,
            final(self).len == old(self).len,
            final(self).data@.len() == old(self).data@.len(),
    {
        let n = self.data.len();
        let idx = self.start + i;
        self.data[idx] = b;
        proof {
            assert(self@ =~= old(self)@.update(i as int, b));
        }
    }

    /// A plain copy of the window's bytes.
    pub fn to_vec(&self) -> (r: Vec<u8>)
        requires
            self.wf(),
        ensures
            r@ == self@,
    {
        let n = self.len;
        let mut out: Vec<u8> = Vec::new();
        let mut j: usize = 0;
        while j < n
            invariant
                self.wf(),
                n == self@.len(),
                0 <= j <= n,
                out@.len() == j,
                forall|k: int| 0 <= k < j ==> out@[k] == self@[k],
            decreases n - j,
        {
            out.push(self.get(j));
            j = j + 1;
        }
        proof {
            assert(out@ =~= self@);
        }
        out
    }
}

} // verus!
