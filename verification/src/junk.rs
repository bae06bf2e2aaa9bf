//! A pre-generated pool of random payload blocks.
//!
//! Sampling returns a copy of one block, selected uniformly at random, so a
//! write request gets a non-degenerate payload without a fresh allocation of
//! randomness per operation.

use vstd::prelude::*;

use crate::aligned::AlignedBuf;
use crate::rng::{fill_random, sample_below};

verus! {

/// The number of payload blocks to pre-generate.
pub const JUNK_BLOCKS: usize = 8192;

/// `x` is a power of two.
pub open spec fn spec_is_pow2(x: u64) -> bool
    decreases x,
{
    if x == 0 {
        false
    } else if x == 1 {
        true
    } else if x % 2 == 1 {
        false
    } else {
        spec_is_pow2(x / 2)
    }
}

/// Computes whether `x` is a power of two.
pub fn is_power_of_two(x: u64) -> (r: bool)
    ensures
        r == spec_is_pow2(x),
{
    if x == 0 {
        return false;
    }
    let mut v: u64 = x;
    while v % 2 == 0
        invariant
            v >= 1,
            spec_is_pow2(x) == spec_is_pow2(v),
        decreases v,
    {
        v = v / 2;
    }
    v == 1
}

/// An immutable pool of `JUNK_BLOCKS` random blocks of the configured block
/// size, initialized once from the seeded random source.
pub struct JunkBuf {
    data: Vec<u8>,
    bs: usize,
}

impl JunkBuf {
    /// The pool holds exactly `JUNK_BLOCKS` blocks of `bs` bytes each.
    pub closed spec fn wf(self) -> bool {
        &&& self.bs >= 1
        &&& self.data@.len() == self.bs * JUNK_BLOCKS
    }

    /// Length of each payload block.
    pub closed spec fn block_size(self) -> usize {
        self.bs
    }

    /// The `i`-th pre-generated payload block.
    pub closed spec fn block(self, i: int) -> Seq<u8> {
        self.data@.subrange(i * self.bs, (i + 1) * self.bs)
    }

    pub fn new(bs: usize, rng: &mut rand_pcg::Pcg64) -> (r: JunkBuf)
        requires
            spec_is_pow2(bs as u64),
            512 <= bs,
            bs <= usize::MAX / JUNK_BLOCKS,
        ensures
            r.wf(),
            r.block_size() == bs,
    {
        let n_bytes = bs * JUNK_BLOCKS;
        let mut data: Vec<u8> = Vec::new();
        let mut j: usize = 0;
        while j < n_bytes
            invariant
                0 <= j <= n_bytes,
                data@.len() == j,
            decreases n_bytes - j,
        {
            data.push(0u8);
            j = j + 1;
        }
        fill_random(rng, &mut data);
        proof {
            assert(bs >= 1) by {
                lemma_pow2_pos(bs as u64);
            }
        }
        JunkBuf { data, bs }
    }

    /// Returns a copy of one payload block, chosen uniformly at random, in
    /// a buffer aligned to the block size, ready to be written to disk.
    pub fn rand(&self, rng: &mut rand_pcg::Pcg64) -> (r: AlignedBuf)
        requires
            self.wf(),
        ensures
            r.wf(),
            r@.len() == self.block_size(),
            exists|i: int| 0 <= i < JUNK_BLOCKS && r@ == self.block(i),
    {
        let idx = sample_below(rng, JUNK_BLOCKS);
        let dlen = self.data.len();
        proof {
            assert(idx * self.bs + self.bs <= JUNK_BLOCKS * self.bs) by (nonlinear_arith)
                requires
                    idx + 1 <= JUNK_BLOCKS,
                    self.bs >= 1,
            ;
            assert(self.bs + self.bs <= JUNK_BLOCKS * self.bs) by (nonlinear_arith)
                requires
                    self.bs >= 1,
            ;
            assert(JUNK_BLOCKS * self.bs == self.bs * JUNK_BLOCKS) by (nonlinear_arith);
        }
        let start = idx * self.bs;
        let mut r = AlignedBuf::zeroed(self.bs, self.bs);
        let mut j: usize = 0;
        while j < self.bs
            invariant
                r.wf(),
                dlen == self.data@.len(),
                start == idx * self.bs,
                start + self.bs <= dlen,
                0 <= j <= self.bs,
                r@.len() == self.bs,
                forall|k: int| 0 <= k < j ==> r@[k] == self.data@[start + k],
            decreases self.bs - j,
        {
            let b = self.data[start + j];
            r.set(j, b);
            j = j + 1;
        }
        proof {
            assert((idx as int + 1) * self.bs == idx as int * self.bs + self.bs)
                by (nonlinear_arith);
            assert(r@ =~= self.block(idx as int));
        }
        r
    }
}

/// A power of two is at least one.
proof fn lemma_pow2_pos(x: u64)
    requires
        spec_is_pow2(x),
    ensures
        x >= 1,
{
}

} // verus!
