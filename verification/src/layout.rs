//! Generation of the populated-block offsets: all block-aligned offsets of
//! the file, uniformly shuffled, truncated to the configured population
//! ratio.

use vstd::prelude::*;

use crate::rng::shuffle;

verus! {

/// `n * num / den`, rounded to the nearest integer (half rounds up).
pub open spec fn spec_rounded_ratio(n: u64, num: u64, den: u64) -> int
    recommends
        den > 0,
{
    (2 * n * num + den) / (2 * den)
}

/// Number of blocks to populate: the total block count scaled by the
/// population ratio `num / den`, rounded to the nearest integer.
pub fn populated_count(n_blocks: u64, ratio_num: u64, ratio_den: u64) -> (r: u64)
    requires
        1 <= ratio_den <= u32::MAX,
        ratio_num <= ratio_den,
    ensures
        r == spec_rounded_ratio(n_blocks, ratio_num, ratio_den),
        r <= n_blocks,
{
    let n: u128 = n_blocks as u128;
    let num: u128 = ratio_num as u128;
    let den: u128 = ratio_den as u128;
    proof {
        assert(2 * n * num + den < u128::MAX) by (nonlinear_arith)
            requires
                n <= u64::MAX,
                num <= u32::MAX,
                den <= u32::MAX,
        ;
        assert((2 * n * num + den) / (2 * den) <= n) by (nonlinear_arith)
            requires
                num <= den,
                1 <= den,
                0 <= n,
        ;
        assert((2 * n * num + den) / (2 * den) == spec_rounded_ratio(
            n_blocks,
            ratio_num,
            ratio_den,
        ));
    }
    let r: u128 = (2 * n * num + den) / (2 * den);
    r as u64
}

/// A sequence whose multiset of elements equals that of a duplicate-free
/// sequence is itself duplicate-free, and holds only elements of the first.
proof fn lemma_multiset_eq_props(a: Seq<u64>, b: Seq<u64>)
    requires
        a.to_multiset() == b.to_multiset(),
        a.no_duplicates(),
    ensures
        b.no_duplicates(),
        forall|x: u64| b.contains(x) ==> a.contains(x),
{
    broadcast use vstd::seq_lib::group_to_multiset_ensures;

    a.lemma_multiset_has_no_duplicates();
    b.lemma_multiset_has_no_duplicates_conv();
    assert forall|x: u64| b.contains(x) implies a.contains(x) by {
        assert(b.to_multiset().count(x) > 0);
        assert(a.to_multiset().count(x) > 0);
    }
}

/// Generates the offsets to populate: a uniformly shuffled subset, without
/// replacement, of the `n_blocks` block-aligned offsets, truncated to
/// `n_populated` entries. Each result is a distinct multiple of `bs` below
/// `n_blocks * bs`.
pub fn generate_offsets(
    n_blocks: u64,
    bs: u64,
    n_populated: u64,
    rng: &mut rand_pcg::Pcg64,
) -> (r: Vec<u64>)
    requires
        1 <= bs,
        n_populated <= n_blocks,
        n_blocks <= usize::MAX,
        n_blocks * bs <= u64::MAX,
    ensures
        r@.len() == n_populated,
        r@.no_duplicates(),
        forall|k: int|
            0 <= k < r@.len() ==> (#[trigger] r@[k]) % bs == 0 && r@[k] < n_blocks * bs,
{
    let mut v: Vec<u64> = Vec::new();
    let mut i: u64 = 0;
    while i < n_blocks
        invariant
            0 <= i <= n_blocks,
            1 <= bs,
            n_blocks * bs <= u64::MAX,
            v@.len() == i,
            forall|k: int| 0 <= k < i ==> v@[k] == k * bs,
        decreases n_blocks - i,
    {
        proof {
            assert(i * bs <= n_blocks * bs && (i + 1) * bs <= n_blocks * bs) by (nonlinear_arith)
                requires
                    0 <= i < n_blocks,
                    1 <= bs,
            ;
        }
        v.push(i * bs);
        i = i + 1;
    }
    proof {
        assert(v@.no_duplicates()) by {
            assert forall|k1: int, k2: int|
                0 <= k1 < v@.len() && 0 <= k2 < v@.len() && k1 != k2 implies v@[k1] != v@[k2] by {
                assert(k1 * bs != k2 * bs) by (nonlinear_arith)
                    requires
                        k1 != k2,
                        1 <= bs,
                ;
            }
        }
    }
    let ghost orig = v@;
    shuffle(&mut v, rng);
    proof {
        lemma_multiset_eq_props(orig, v@);
        assert forall|k: int| 0 <= k < v@.len() implies (#[trigger] v@[k]) % bs == 0 && v@[k]
            < n_blocks * bs by {
            assert(v@.contains(v@[k]));
            assert(orig.contains(v@[k]));
            let i = choose|i: int| 0 <= i < orig.len() && orig[i] == v@[k];
            assert(orig[i] == i * bs);
            vstd::arithmetic::div_mod::lemma_mod_multiples_basic(i, bs as int);
            vstd::arithmetic::mul::lemma_mul_strict_inequality(i, n_blocks as int, bs as int);
        }
    }
    let ghost shuffled = v@;
    v.truncate(n_populated as usize);
    proof {
        assert(v@ == shuffled.subrange(0, n_populated as int));
        assert(v@.no_duplicates()) by {
            assert forall|k1: int, k2: int|
                0 <= k1 < v@.len() && 0 <= k2 < v@.len() && k1 != k2 implies v@[k1] != v@[k2] by {
                assert(v@[k1] == shuffled[k1] && v@[k2] == shuffled[k2]);
            }
        }
        assert forall|k: int| 0 <= k < v@.len() implies (#[trigger] v@[k]) % bs == 0 && v@[k]
            < n_blocks * bs by {
            assert(v@[k] == shuffled[k]);
        }
    }
    v
}

} // verus!
