//! The fixed iterative pipeline: the rejection initializer builds the grid
//! once; each round then rescales the grid by its maximum and runs one
//! propagation pass on the rescaled grid. Every step is a function of the
//! configuration, the field samples, the comparator and the density
//! evaluator alone, so two runs over the same inputs return the same grid.

use vstd::prelude::*;
use crate::bits;
use crate::grid::{Config, DensityGrid};
use crate::kernel::{Comparator, PointDensity};
use crate::normalize;
use crate::propagator;
use crate::rejection;

verus! {

/// The initializer's grid, cell by cell.
pub open spec fn init_seq<C: Comparator, G: PointDensity>(
    cfg: Config,
    cmp: C,
    gauss: G,
    field: Seq<u64>,
    ref_val: u64,
    u0: u64,
    u1: u64,
) -> Seq<u64> {
    Seq::new(
        cfg.spec_cells() as nat,
        |i: int| rejection::init_cell(cfg, cmp, gauss, field, ref_val, u0, u1, i),
    )
}

/// A grid after division of every cell by the grid's maximum.
pub open spec fn normalized_seq(g: Seq<u64>) -> Seq<u64> {
    Seq::new(g.len(), |i: int| bits::div_bits(g[i], normalize::grid_max(g)))
}

/// A grid after one propagation pass over `prev`.
pub open spec fn propagated_seq<C: Comparator, G: PointDensity>(
    cfg: Config,
    cmp: C,
    gauss: G,
    field: Seq<u64>,
    prev: Seq<u64>,
) -> Seq<u64> {
    Seq::new(
        cfg.spec_cells() as nat,
        |t: int| propagator::new_cell(cfg, cmp, gauss, field, prev, t),
    )
}

/// The grid after `k` rounds: round zero is the initializer's grid; each
/// later round propagates the previous round's grid rescaled by its maximum.
pub open spec fn refined_seq<C: Comparator, G: PointDensity>(
    cfg: Config,
    cmp: C,
    gauss: G,
    field: Seq<u64>,
    ref_val: u64,
    u0: u64,
    u1: u64,
    k: int,
) -> Seq<u64>
    decreases k,
{
    if k <= 0 {
        init_seq(cfg, cmp, gauss, field, ref_val, u0, u1)
    } else {
        propagated_seq(
            cfg,
            cmp,
            gauss,
            field,
            normalized_seq(refined_seq(cfg, cmp, gauss, field, ref_val, u0, u1, k - 1)),
        )
    }
}

/// Determinism of the pipeline, as a law: two grids that arose from
/// identical configuration, comparator, density evaluator, field samples,
/// reference and round count are equal, cell for cell — every step is a
/// function of those inputs alone.
pub proof fn lemma_pipeline_deterministic<C: Comparator, G: PointDensity>(
    cfg: Config,
    cmp: C,
    gauss: G,
    field: Seq<u64>,
    ref_val: u64,
    u0: u64,
    u1: u64,
    k: int,
    first: Seq<u64>,
    second: Seq<u64>,
)
    requires
        first == refined_seq(cfg, cmp, gauss, field, ref_val, u0, u1, k),
        second == refined_seq(cfg, cmp, gauss, field, ref_val, u0, u1, k),
    ensures
        first == second,
{
}

/// Runs the whole pipeline: initialization, then `rounds` rounds of
/// rescale-by-maximum followed by one propagation pass. The result is
/// exactly the `rounds`-fold refinement of the initial grid, a function of
/// the arguments alone.
pub fn refine<C: Comparator, G: PointDensity>(
    cfg: &Config,
    cmp: &C,
    gauss: &G,
    field: &Vec<u64>,
    ref_val: u64,
    u0: u64,
    u1: u64,
    rounds: usize,
) -> (g: DensityGrid)
    requires
        cfg.wf(),
        field@.len() == cfg.spec_cells(),
    ensures
        g.wf(),
        g.matches(*cfg),
        g@ == refined_seq(*cfg, *cmp, *gauss, field@, ref_val, u0, u1, rounds as int),
{
    let mut g = rejection::initialize(cfg, cmp, gauss, field, ref_val, u0, u1);
    proof {
        assert(g@ =~= init_seq(*cfg, *cmp, *gauss, field@, ref_val, u0, u1));
    }
    let mut k: usize = 0;
    while k < rounds
        invariant
            cfg.wf(),
            field@.len() == cfg.spec_cells(),
            k <= rounds,
            g.wf(),
            g.matches(*cfg),
            g@ == refined_seq(*cfg, *cmp, *gauss, field@, ref_val, u0, u1, k as int),
        decreases rounds - k,
    {
        let ghost before = g@;
        normalize::normalize_by_max(&mut g);
        proof {
            assert(g@ =~= normalized_seq(before));
        }
        let next = propagator::propagate(cfg, cmp, gauss, field, &g);
        proof {
            assert(next@ =~= propagated_seq(*cfg, *cmp, *gauss, field@, g@));
        }
        g = next;
        k = k + 1;
    }
    g
}

} // verus!
