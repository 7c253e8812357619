//! Display-range normalization: between refinement passes the grid is
//! rescaled by its maximum cell value (not by its integral), exactly as the
//! orchestration renders it. The maximum is the comparison-based running
//! maximum folded from positive zero; every cell is then divided by it, with
//! no guard for an all-zero grid (dividing zero by zero then yields NaN).

use vstd::prelude::*;
use crate::bits;
use crate::grid::DensityGrid;

verus! {

/// The running maximum of the first `n` cells, folded from positive zero.
pub open spec fn max_prefix(g: Seq<u64>, n: int) -> u64
    decreases n,
{
    if n <= 0 {
        bits::POS_ZERO
    } else {
        bits::max_bits(max_prefix(g, n - 1), g[n - 1])
    }
}

/// The grid's maximum cell value under the comparison-based maximum.
pub open spec fn grid_max(g: Seq<u64>) -> u64 {
    max_prefix(g, g.len() as int)
}

/// The running maximum is an upper bound: no cell among the first `n`
/// compares strictly greater than it, provided none is NaN.
pub proof fn lemma_max_prefix_upper_bound(g: Seq<u64>, n: int)
    requires
        forall|i: int| 0 <= i < n ==> !bits::is_nan_bits(g[i]),
    ensures
        forall|i: int| 0 <= i < n ==> !bits::gt_bits(g[i], max_prefix(g, n)),
    decreases n,
{
    if n > 0 {
        lemma_max_prefix_upper_bound(g, n - 1);
        let m = max_prefix(g, n - 1);
        let m2 = max_prefix(g, n);
        assert forall|i: int| 0 <= i < n implies !bits::gt_bits(g[i], m2) by {
            if i < n - 1 && bits::gt_bits(g[i], m2) {
                bits::lemma_gt_trans(g[i], m2, m);
            }
        }
    }
}

/// The running maximum is positive zero or one of the cells it ran over.
pub proof fn lemma_max_prefix_membership(g: Seq<u64>, n: int)
    ensures
        max_prefix(g, n) == bits::POS_ZERO || exists|i: int|
            0 <= i < n && g[i] == max_prefix(g, n),
    decreases n,
{
    if n > 0 {
        lemma_max_prefix_membership(g, n - 1);
    }
}

/// The running maximum of cells that all stay within a bound stays within
/// the bound, provided positive zero (the fold's start) does too.
pub proof fn lemma_max_prefix_bounded(g: Seq<u64>, n: int, bound: u64)
    requires
        !bits::gt_bits(bits::POS_ZERO, bound),
        forall|i: int| 0 <= i < n ==> !bits::gt_bits(g[i], bound),
    ensures
        !bits::gt_bits(max_prefix(g, n), bound),
    decreases n,
{
    if n > 0 {
        lemma_max_prefix_bounded(g, n - 1, bound);
    }
}

/// The maximum cell value of a density grid.
pub fn max_of(g: &DensityGrid) -> (m: u64)
    ensures
        m == grid_max(g@),
{
    let n = g.cells.len();
    let mut m: u64 = bits::POS_ZERO;
    let mut i: usize = 0;
    while i < n
        invariant
            n == g@.len(),
            i <= n,
            m == max_prefix(g@, i as int),
        decreases n - i,
    {
        m = bits::fmax(m, g.cells[i]);
        i = i + 1;
    }
    m
}

/// Divides every cell by the grid's maximum, in place. Normalizing a grid
/// whose maximum is exactly one leaves every non-NaN cell unchanged, so
/// normalizing an already-normalized grid is a no-op. And the result is a
/// display range: on a grid of non-NaN, non-negative cells whose maximum is
/// a positive finite number, every produced cell is non-negative, not above
/// one, and not NaN, and the produced grid's maximum is exactly one.
pub fn normalize_by_max(g: &mut DensityGrid)
    requires
        old(g).wf(),
    ensures
        final(g).wf(),
        final(g).width == old(g).width,
        final(g).height == old(g).height,
        final(g)@.len() == old(g)@.len(),
        forall|i: int|
            0 <= i < old(g)@.len() ==> final(g)@[i] == bits::div_bits(
                old(g)@[i],
                grid_max(old(g)@),
            ),
        forall|i: int|
            (0 <= i < old(g)@.len() && grid_max(old(g)@) == bits::ONE_BITS && !bits::is_nan_bits(
                old(g)@[i],
            )) ==> final(g)@[i] == old(g)@[i],
        (bits::is_pos_real_bits(grid_max(old(g)@)) && forall|i: int|
            0 <= i < old(g)@.len() ==> (old(g)@[i] & bits::SIGN_MASK == 0 && !bits::is_nan_bits(
                old(g)@[i],
            ))) ==> forall|i: int|
            0 <= i < old(g)@.len() ==> (final(g)@[i] & bits::SIGN_MASK == 0 && !bits::gt_bits(
                final(g)@[i],
                bits::ONE_BITS,
            ) && !bits::is_nan_bits(final(g)@[i])),
        (bits::is_pos_real_bits(grid_max(old(g)@)) && forall|i: int|
            0 <= i < old(g)@.len() ==> (old(g)@[i] & bits::SIGN_MASK == 0 && !bits::is_nan_bits(
                old(g)@[i],
            ))) ==> grid_max(final(g)@) == bits::ONE_BITS,
{
    let m = max_of(g);
    let n = g.cells.len();
    proof {
        if forall|j: int| 0 <= j < n ==> !bits::is_nan_bits(old(g)@[j]) {
            lemma_max_prefix_upper_bound(old(g)@, n as int);
        }
    }
    let mut i: usize = 0;
    while i < n
        invariant
            old(g).wf(),
            n == old(g)@.len(),
            g.width == old(g).width,
            g.height == old(g).height,
            g@.len() == n,
            m == grid_max(old(g)@),
            i <= n,
            forall|j: int| i <= j < n ==> g@[j] == old(g)@[j],
            forall|j: int| 0 <= j < i ==> g@[j] == bits::div_bits(old(g)@[j], m),
            forall|j: int|
                (0 <= j < i && m == bits::ONE_BITS && !bits::is_nan_bits(old(g)@[j])) ==> g@[j]
                    == old(g)@[j],
            (forall|j: int| 0 <= j < n ==> !bits::is_nan_bits(old(g)@[j])) ==> forall|j: int|
                0 <= j < n ==> !bits::gt_bits(old(g)@[j], m),
            (bits::is_pos_real_bits(m) && forall|j: int|
                0 <= j < n ==> (old(g)@[j] & bits::SIGN_MASK == 0 && !bits::is_nan_bits(
                    old(g)@[j],
                ))) ==> forall|j: int|
                0 <= j < i ==> (g@[j] & bits::SIGN_MASK == 0 && !bits::gt_bits(
                    g@[j],
                    bits::ONE_BITS,
                ) && !bits::is_nan_bits(g@[j])),
            forall|j: int|
                (0 <= j < i && old(g)@[j] == m && bits::is_pos_real_bits(m)) ==> g@[j]
                    == bits::ONE_BITS,
        decreases n - i,
    {
        proof {
            assert(m < 0x7FF0_0000_0000_0000u64 ==> m & 0x8000_0000_0000_0000u64 == 0u64)
                by (bit_vector);
        }
        let v = bits::fdiv(g.cells[i], m);
        g.cells[i] = v;
        i = i + 1;
    }
    proof {
        let go = old(g)@;
        let gf = g@;
        if bits::is_pos_real_bits(grid_max(go)) && forall|j: int|
            0 <= j < go.len() ==> (go[j] & bits::SIGN_MASK == 0 && !bits::is_nan_bits(go[j])) {
            assert(0u64 & 0x7FF0_0000_0000_0000u64 != 0x7FF0_0000_0000_0000u64) by (bit_vector);
            assert(0x3FF0_0000_0000_0000u64 & 0x7FF0_0000_0000_0000u64
                != 0x7FF0_0000_0000_0000u64) by (bit_vector);
            assert(0x3FF0_0000_0000_0000u64 & 0x7FFF_FFFF_FFFF_FFFFu64 != 0u64) by (bit_vector);
            assert(!((if 0u64 & 0x8000_0000_0000_0000u64 != 0 {
                !0u64
            } else {
                0u64 | 0x8000_0000_0000_0000u64
            }) > (if 0x3FF0_0000_0000_0000u64 & 0x8000_0000_0000_0000u64 != 0 {
                !0x3FF0_0000_0000_0000u64
            } else {
                0x3FF0_0000_0000_0000u64 | 0x8000_0000_0000_0000u64
            }))) by (bit_vector);
            lemma_max_prefix_membership(go, go.len() as int);
            let istar = choose|j: int| 0 <= j < go.len() && go[j] == grid_max(go);
            assert(gf[istar] == bits::ONE_BITS);
            lemma_max_prefix_bounded(gf, gf.len() as int, bits::ONE_BITS);
            lemma_max_prefix_upper_bound(gf, gf.len() as int);
            lemma_max_prefix_membership(gf, gf.len() as int);
            bits::lemma_gt_antisym(grid_max(gf), bits::ONE_BITS);
        }
    }
}

} // verus!
