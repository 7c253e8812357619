//! The rejection initializer: builds the initial density grid by testing each
//! cell's scalar-field value against the field's value at a fixed reference
//! point. Rejected cells are exactly positive zero; accepted cells carry the
//! injected point density of the cell against the reference point.

use vstd::prelude::*;
use crate::bits;
use crate::grid::{Config, DensityGrid};
use crate::kernel::{Comparator, PointDensity};

verus! {

/// The value the initializer assigns to cell `i`: positive zero where the
/// comparator rejects the field's value at `i` against the reference value,
/// the density of the cell's point against the reference point otherwise.
pub open spec fn init_cell<C: Comparator, G: PointDensity>(
    cfg: Config,
    cmp: C,
    gauss: G,
    field: Seq<u64>,
    ref_val: u64,
    u0: u64,
    u1: u64,
    i: int,
) -> u64 {
    if cmp.spec_rejects(field[i], ref_val) {
        bits::POS_ZERO
    } else {
        gauss.spec_density(cfg.px(i), cfg.py(i), u0, u1, cfg.variance)
    }
}

/// Builds the initial density grid: for every cell in row-major order, the
/// comparator decides acceptance from the field's value at the cell and the
/// single reference value `ref_val` (the field's value at `(u0, u1)`), and
/// accepted cells receive the injected density. Cells are independent, and
/// never negative: each carries a clear sign bit, being positive zero or a
/// density.
pub fn initialize<C: Comparator, G: PointDensity>(
    cfg: &Config,
    cmp: &C,
    gauss: &G,
    field: &Vec<u64>,
    ref_val: u64,
    u0: u64,
    u1: u64,
) -> (g: DensityGrid)
    requires
        cfg.wf(),
        field@.len() == cfg.spec_cells(),
    ensures
        g.wf(),
        g.matches(*cfg),
        forall|i: int|
            0 <= i < cfg.spec_cells() ==> g@[i] == init_cell(
                *cfg,
                *cmp,
                *gauss,
                field@,
                ref_val,
                u0,
                u1,
                i,
            ),
        forall|i: int| 0 <= i < cfg.spec_cells() ==> g@[i] & bits::SIGN_MASK == 0,
{
    let n = cfg.cells();
    let mut cells: Vec<u64> = Vec::new();
    let mut i: usize = 0;
    while i < n
        invariant
            n == cfg.spec_cells(),
            cfg.wf(),
            field@.len() == n,
            i <= n,
            cells@.len() == i,
            forall|j: int|
                0 <= j < i ==> cells@[j] == init_cell(
                    *cfg,
                    *cmp,
                    *gauss,
                    field@,
                    ref_val,
                    u0,
                    u1,
                    j,
                ),
            forall|j: int| 0 <= j < i ==> cells@[j] & bits::SIGN_MASK == 0,
        decreases n - i,
    {
        proof {
            assert(0u64 & 0x8000_0000_0000_0000u64 == 0u64) by (bit_vector);
        }
        let v = if cmp.rejects(field[i], ref_val) {
            bits::POS_ZERO
        } else {
            gauss.density(cfg.point_x(i), cfg.point_y(i), u0, u1, cfg.variance)
        };
        cells.push(v);
        i = i + 1;
    }
    DensityGrid { width: cfg.width, height: cfg.height, cells }
}

/// The initializer never makes a cell negative: a produced cell is either
/// exactly positive zero or exactly what the evaluator returned for that
/// cell, so its sign bit is clear whenever the evaluator's is.
pub proof fn lemma_init_cell_nonnegative<C: Comparator, G: PointDensity>(
    cfg: Config,
    cmp: C,
    gauss: G,
    field: Seq<u64>,
    ref_val: u64,
    u0: u64,
    u1: u64,
    i: int,
)
    requires
        gauss.spec_density(cfg.px(i), cfg.py(i), u0, u1, cfg.variance) & bits::SIGN_MASK == 0,
    ensures
        init_cell(cfg, cmp, gauss, field, ref_val, u0, u1, i) & bits::SIGN_MASK == 0,
{
    assert(0u64 & 0x8000_0000_0000_0000u64 == 0u64) by (bit_vector);
}

/// Wherever the comparator rejects, the initializer's cell is exactly
/// positive zero, for every configuration, field and density evaluator.
pub proof fn lemma_rejected_cell_is_zero<C: Comparator, G: PointDensity>(
    cfg: Config,
    cmp: C,
    gauss: G,
    field: Seq<u64>,
    ref_val: u64,
    u0: u64,
    u1: u64,
    i: int,
)
    requires
        cmp.spec_rejects(field[i], ref_val),
    ensures
        init_cell(cfg, cmp, gauss, field, ref_val, u0, u1, i) == bits::POS_ZERO,
{
}

} // verus!
