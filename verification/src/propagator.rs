//! The density propagator: one refinement pass treats every cell of the
//! previous grid as a point source, computes each source's partition sum over
//! all targets, and accumulates onto every target each source's kernel value
//! scaled by the source's mass and normalized by that source's own partition
//! sum. A source whose partition sum is a floating-point zero would divide by
//! zero; such a source is skipped and contributes nothing (the documented
//! degenerate-kernel policy).

use vstd::prelude::*;
use crate::bits;
use crate::grid::{Config, DensityGrid};
use crate::kernel::{Comparator, PointDensity};

verus! {

/// The pairwise kernel from source cell `s` to target cell `t`: positive
/// zero where the comparator rejects the field's value at the target against
/// its value at the source, the density of the target's point against the
/// source's point otherwise. Generally not symmetric.
pub open spec fn kernel_at<C: Comparator, G: PointDensity>(
    cfg: Config,
    cmp: C,
    gauss: G,
    field: Seq<u64>,
    s: int,
    t: int,
) -> u64 {
    if cmp.spec_rejects(field[t], field[s]) {
        bits::POS_ZERO
    } else {
        gauss.spec_density(cfg.px(t), cfg.py(t), cfg.px(s), cfg.py(s), cfg.variance)
    }
}

/// The partition sum of source `s` over the first `n` targets, folded as
/// `kernel + acc` from positive zero, in target order.
pub open spec fn partition_prefix<C: Comparator, G: PointDensity>(
    cfg: Config,
    cmp: C,
    gauss: G,
    field: Seq<u64>,
    s: int,
    n: int,
) -> u64
    decreases n,
{
    if n <= 0 {
        bits::POS_ZERO
    } else {
        bits::add_bits(
            kernel_at(cfg, cmp, gauss, field, s, n - 1),
            partition_prefix(cfg, cmp, gauss, field, s, n - 1),
        )
    }
}

/// The partition sum `Z[s]`: the kernel of source `s` summed over every
/// target cell of the grid.
pub open spec fn partition_sum<C: Comparator, G: PointDensity>(
    cfg: Config,
    cmp: C,
    gauss: G,
    field: Seq<u64>,
    s: int,
) -> u64 {
    partition_prefix(cfg, cmp, gauss, field, s, cfg.spec_cells())
}

/// The new value of target `t` accumulated over the first `n` sources,
/// folded as `acc + prev[s] * kernel(s, t) / Z[s]` from positive zero, in
/// source order; a source whose partition sum is a floating-point zero is
/// skipped.
pub open spec fn new_cell_prefix<C: Comparator, G: PointDensity>(
    cfg: Config,
    cmp: C,
    gauss: G,
    field: Seq<u64>,
    prev: Seq<u64>,
    t: int,
    n: int,
) -> u64
    decreases n,
{
    if n <= 0 {
        bits::POS_ZERO
    } else {
        let rest = new_cell_prefix(cfg, cmp, gauss, field, prev, t, n - 1);
        let z = partition_sum(cfg, cmp, gauss, field, n - 1);
        if bits::is_zero_bits(z) {
            rest
        } else {
            bits::add_bits(
                rest,
                bits::div_bits(
                    bits::mul_bits(prev[n - 1], kernel_at(cfg, cmp, gauss, field, n - 1, t)),
                    z,
                ),
            )
        }
    }
}

/// The new value of target `t`: every source's normalized contribution.
pub open spec fn new_cell<C: Comparator, G: PointDensity>(
    cfg: Config,
    cmp: C,
    gauss: G,
    field: Seq<u64>,
    prev: Seq<u64>,
    t: int,
) -> u64 {
    new_cell_prefix(cfg, cmp, gauss, field, prev, t, cfg.spec_cells())
}

/// The degenerate-kernel policy, as a law: when every one of the first `n`
/// sources has a partition sum that is a floating-point zero, the
/// accumulated new value of any target over those sources is exactly
/// positive zero — no division by a zero partition sum is ever performed.
pub proof fn lemma_degenerate_sources_contribute_nothing<C: Comparator, G: PointDensity>(
    cfg: Config,
    cmp: C,
    gauss: G,
    field: Seq<u64>,
    prev: Seq<u64>,
    t: int,
    n: int,
)
    requires
        forall|s: int|
            0 <= s < n ==> bits::is_zero_bits(partition_sum(cfg, cmp, gauss, field, s)),
    ensures
        new_cell_prefix(cfg, cmp, gauss, field, prev, t, n) == bits::POS_ZERO,
    decreases n,
{
    if n > 0 {
        lemma_degenerate_sources_contribute_nothing(cfg, cmp, gauss, field, prev, t, n - 1);
    }
}

/// Evaluates the pairwise kernel from source `s` to target `t`.
fn kernel_value<C: Comparator, G: PointDensity>(
    cfg: &Config,
    cmp: &C,
    gauss: &G,
    field: &Vec<u64>,
    s: usize,
    t: usize,
) -> (r: u64)
    requires
        cfg.wf(),
        field@.len() == cfg.spec_cells(),
        s < cfg.spec_cells(),
        t < cfg.spec_cells(),
    ensures
        r == kernel_at(*cfg, *cmp, *gauss, field@, s as int, t as int),
        r & bits::SIGN_MASK == 0,
{
    proof {
        assert(0u64 & 0x8000_0000_0000_0000u64 == 0u64) by (bit_vector);
    }
    if cmp.rejects(field[t], field[s]) {
        bits::POS_ZERO
    } else {
        gauss.density(cfg.point_x(t), cfg.point_y(t), cfg.point_x(s), cfg.point_y(s), cfg.variance)
    }
}

/// Computes the partition sum of source `s` over every target cell.
fn partition_for<C: Comparator, G: PointDensity>(
    cfg: &Config,
    cmp: &C,
    gauss: &G,
    field: &Vec<u64>,
    s: usize,
) -> (z: u64)
    requires
        cfg.wf(),
        field@.len() == cfg.spec_cells(),
        s < cfg.spec_cells(),
    ensures
        z == partition_sum(*cfg, *cmp, *gauss, field@, s as int),
        z & bits::SIGN_MASK == 0,
{
    let n = cfg.cells();
    proof {
        assert(0u64 & 0x8000_0000_0000_0000u64 == 0u64) by (bit_vector);
    }
    let mut acc: u64 = bits::POS_ZERO;
    let mut t: usize = 0;
    while t < n
        invariant
            cfg.wf(),
            field@.len() == cfg.spec_cells(),
            s < cfg.spec_cells(),
            n == cfg.spec_cells(),
            t <= n,
            acc == partition_prefix(*cfg, *cmp, *gauss, field@, s as int, t as int),
            acc & bits::SIGN_MASK == 0,
        decreases n - t,
    {
        let k = kernel_value(cfg, cmp, gauss, field, s, t);
        acc = bits::fadd(k, acc);
        t = t + 1;
    }
    acc
}

/// One refinement pass. Consumes the previous grid by reference and produces
/// a new grid of the same shape in which every target cell holds the sum,
/// over all sources, of the source's previous mass times the kernel from the
/// source to the target, divided by the source's partition sum; sources with
/// a zero partition sum contribute nothing. Propagation preserves
/// non-negativity: when every previous cell carries a clear sign bit, so
/// does every produced cell.
pub fn propagate<C: Comparator, G: PointDensity>(
    cfg: &Config,
    cmp: &C,
    gauss: &G,
    field: &Vec<u64>,
    prev: &DensityGrid,
) -> (g: DensityGrid)
    requires
        cfg.wf(),
        field@.len() == cfg.spec_cells(),
        prev.matches(*cfg),
    ensures
        g.wf(),
        g.matches(*cfg),
        forall|t: int|
            0 <= t < cfg.spec_cells() ==> g@[t] == new_cell(
                *cfg,
                *cmp,
                *gauss,
                field@,
                prev@,
                t,
            ),
        (forall|s: int| 0 <= s < cfg.spec_cells() ==> prev@[s] & bits::SIGN_MASK == 0) ==> (forall|
            t: int,
        |
            0 <= t < cfg.spec_cells() ==> g@[t] & bits::SIGN_MASK == 0),
{
    let n = cfg.cells();

    let mut z: Vec<u64> = Vec::new();
    let mut s: usize = 0;
    while s < n
        invariant
            cfg.wf(),
            field@.len() == cfg.spec_cells(),
            n == cfg.spec_cells(),
            s <= n,
            z@.len() == s,
            forall|j: int| 0 <= j < s ==> z@[j] == partition_sum(*cfg, *cmp, *gauss, field@, j),
            forall|j: int| 0 <= j < s ==> z@[j] & bits::SIGN_MASK == 0,
        decreases n - s,
    {
        let zs = partition_for(cfg, cmp, gauss, field, s);
        z.push(zs);
        s = s + 1;
    }

    let mut cells: Vec<u64> = Vec::new();
    let mut t: usize = 0;
    while t < n
        invariant
            cfg.wf(),
            field@.len() == cfg.spec_cells(),
            prev.matches(*cfg),
            n == cfg.spec_cells(),
            t <= n,
            z@.len() == n,
            forall|j: int| 0 <= j < n ==> z@[j] == partition_sum(*cfg, *cmp, *gauss, field@, j),
            forall|j: int| 0 <= j < n ==> z@[j] & bits::SIGN_MASK == 0,
            cells@.len() == t,
            forall|j: int|
                0 <= j < t ==> cells@[j] == new_cell(*cfg, *cmp, *gauss, field@, prev@, j),
            (forall|j: int| 0 <= j < n ==> prev@[j] & bits::SIGN_MASK == 0) ==> (forall|j: int|
                0 <= j < t ==> cells@[j] & bits::SIGN_MASK == 0),
        decreases n - t,
    {
        proof {
            assert(0u64 & 0x8000_0000_0000_0000u64 == 0u64) by (bit_vector);
        }
        let mut acc: u64 = bits::POS_ZERO;
        let mut src: usize = 0;
        while src < n
            invariant
                cfg.wf(),
                field@.len() == cfg.spec_cells(),
                prev.matches(*cfg),
                n == cfg.spec_cells(),
                t < n,
                src <= n,
                z@.len() == n,
                forall|j: int| 0 <= j < n ==> z@[j] == partition_sum(*cfg, *cmp, *gauss, field@, j),
                forall|j: int| 0 <= j < n ==> z@[j] & bits::SIGN_MASK == 0,
                acc == new_cell_prefix(*cfg, *cmp, *gauss, field@, prev@, t as int, src as int),
                (forall|j: int| 0 <= j < n ==> prev@[j] & bits::SIGN_MASK == 0) ==> acc
                    & bits::SIGN_MASK == 0,
            decreases n - src,
        {
            let zs = z[src];
            if !bits::is_zero(zs) {
                let k = kernel_value(cfg, cmp, gauss, field, src, t);
                let scaled = bits::fdiv(bits::fmul(prev.get(src), k), zs);
                acc = bits::fadd(acc, scaled);
            }
            src = src + 1;
        }
        cells.push(acc);
        t = t + 1;
    }
    DensityGrid { width: cfg.width, height: cfg.height, cells }
}

} // verus!
