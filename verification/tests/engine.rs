use density_refine::gauss::Gaussian;
use density_refine::grid::{Config, DensityGrid};
use density_refine::kernel::{PointDensity, RejectIfGreater, Transcendental};
use density_refine::normalize;
use density_refine::pipeline;
use density_refine::propagator;
use density_refine::rejection;

fn b(x: f64) -> u64 {
    x.to_bits()
}

fn f(x: u64) -> f64 {
    f64::from_bits(x)
}

/// The direct hardware computation of the Gaussian density, for expected
/// values: `exp(-0.5 * (((x0-m0)^2 + (x1-m1)^2) / var + 2 * ln(var * 2 * pi)))`
/// with left-folded sums.
fn pdf(x0: f64, x1: f64, m0: f64, m1: f64, var: f64) -> f64 {
    let d0 = x0 - m0;
    let d1 = x1 - m1;
    let ssq = (0.0 + d0 * d0) + d1 * d1;
    (-0.5 * (ssq / var + 2.0 * (var * 2.0 * std::f64::consts::PI).ln())).exp()
}

/// The injected transcendentals: the platform libm, with the exponential's
/// sign bit cleared (its range is non-negative; only a NaN result could
/// carry a sign).
struct Libm;

fn libm_exp(a: u64) -> u64 {
    f64::from_bits(a).exp().to_bits() & 0x7FFF_FFFF_FFFF_FFFF
}

fn libm_ln(a: u64) -> u64 {
    f64::from_bits(a).ln().to_bits()
}

impl Transcendental for Libm {
    // In a build without verification the trait's specification functions
    // are ordinary items; they must agree with `exp` and `ln`.
    fn spec_exp(&self, a: u64) -> u64 {
        libm_exp(a)
    }

    fn spec_ln(&self, a: u64) -> u64 {
        libm_ln(a)
    }

    fn exp(&self, a: u64) -> u64 {
        libm_exp(a)
    }

    fn ln(&self, a: u64) -> u64 {
        libm_ln(a)
    }
}

fn gauss() -> Gaussian<Libm> {
    Gaussian { trans: Libm }
}

/// A degenerate evaluator whose density is zero everywhere, so every
/// source's partition sum is zero.
struct ZeroDensity;

impl PointDensity for ZeroDensity {
    fn spec_density(&self, _x0: u64, _x1: u64, _m0: u64, _m1: u64, _variance: u64) -> u64 {
        b(0.0)
    }

    fn density(&self, _x0: u64, _x1: u64, _m0: u64, _m1: u64, _variance: u64) -> u64 {
        b(0.0)
    }
}

/// Field samples of `f(x, y) = x + y` over a w by h unit-spaced grid.
fn sum_field(w: usize, h: usize) -> Vec<u64> {
    let mut v = Vec::new();
    for i in 0..w * h {
        v.push(b(((i % w) + (i / w)) as f64));
    }
    v
}

fn unit_config(w: usize, h: usize) -> Config {
    Config::new(w, h, b(1.0), b(1.0), b(1.0)).unwrap()
}

fn init_4x4() -> (Config, DensityGrid) {
    let cfg = unit_config(4, 4);
    let field = sum_field(4, 4);
    let g = rejection::initialize(&cfg, &RejectIfGreater, &gauss(), &field, b(4.0), b(2.0), b(2.0));
    (cfg, g)
}

#[test]
fn gaussian_positive_finite_peaked_and_decreasing() {
    let ev = gauss();
    let at = |x0: f64, x1: f64| f(ev.density(b(x0), b(x1), b(2.0), b(2.0), b(1.0)));
    let p0 = at(2.0, 2.0);
    let p1 = at(3.0, 2.0);
    let p2 = at(3.0, 3.0);
    let p3 = at(5.0, 6.0);
    for p in [p0, p1, p2, p3] {
        assert!(p > 0.0 && p.is_finite());
    }
    // Maximal at the mean, non-increasing with Euclidean distance.
    assert!(p0 > p1 && p1 > p2 && p2 > p3);
    // The evaluator agrees with the direct hardware computation.
    assert_eq!(p0.to_bits(), pdf(2.0, 2.0, 2.0, 2.0, 1.0).to_bits());
    assert_eq!(p3.to_bits(), pdf(5.0, 6.0, 2.0, 2.0, 1.0).to_bits());
    // The same holds for another variance.
    let q0 = f(ev.density(b(0.0), b(0.0), b(0.0), b(0.0), b(0.1)));
    let q1 = f(ev.density(b(0.5), b(0.0), b(0.0), b(0.0), b(0.1)));
    assert!(q0 > 0.0 && q0.is_finite() && q0 > q1);
}

#[test]
fn initializer_zero_where_rejected_nonnegative_everywhere() {
    let (_cfg, g) = init_4x4();
    assert_eq!(g.cells.len(), 16);
    for i in 0..16 {
        let x = i % 4;
        let y = i / 4;
        let v = f(g.cells[i]);
        assert!(v >= 0.0, "cell {i} negative");
        if (x + y) as f64 > 4.0 {
            assert_eq!(g.cells[i], b(0.0), "rejected cell {i} not exactly zero");
        } else {
            assert!(v > 0.0, "accepted cell {i} should be positive");
        }
    }
}

#[test]
fn end_to_end_4x4_scenario() {
    let (_cfg, g) = init_4x4();
    // Hand-checked cells: (0,0) accepted with squared distance 8.
    let expected00 = (-0.5 * (8.0 + 2.0 * (2.0 * std::f64::consts::PI).ln())).exp();
    assert_eq!(g.cells[0], b(expected00));
    assert_eq!(f(g.cells[0]), expected00);
    // (2,2) is the reference point itself: squared distance 0.
    let expected22 = (-0.5 * (0.0 + 2.0 * (2.0 * std::f64::consts::PI).ln())).exp();
    assert_eq!(g.cells[2 + 4 * 2], b(expected22));
    // (3,3) rejected: 6 > 4.
    assert_eq!(g.cells[3 + 4 * 3], b(0.0));
    // (3,2) and (2,3) rejected: 5 > 4.
    assert_eq!(g.cells[3 + 4 * 2], b(0.0));
    assert_eq!(g.cells[2 + 4 * 3], b(0.0));
    // (1,2) accepted: squared distance 1.
    let expected12 = (-0.5 * (1.0 + 2.0 * (2.0 * std::f64::consts::PI).ln())).exp();
    assert_eq!(g.cells[1 + 4 * 2], b(expected12));
}

#[test]
fn propagation_conserves_mass() {
    let cfg = unit_config(10, 10);
    let mut field = Vec::new();
    for i in 0..100 {
        field.push(b(((i * 7 + 3) % 11) as f64 * 0.1));
    }
    let prev = rejection::initialize(
        &cfg,
        &RejectIfGreater,
        &gauss(),
        &field,
        b(0.5),
        b(4.0),
        b(4.0),
    );
    let next = propagator::propagate(&cfg, &RejectIfGreater, &gauss(), &field, &prev);
    let before: f64 = prev.cells.iter().map(|&c| f(c)).sum();
    let after: f64 = next.cells.iter().map(|&c| f(c)).sum();
    assert!(before > 0.0);
    let rel = ((after - before) / before).abs();
    assert!(rel < 1e-9, "mass not conserved: {before} -> {after}");
}

#[test]
fn propagation_on_constant_field_matches_direct_computation() {
    // Constant field: the comparator never rejects, so the kernel is the
    // plain Gaussian and every partition sum is the same constant.
    let cfg = unit_config(2, 2);
    let field = vec![b(0.5); 4];
    let prev = DensityGrid {
        width: 2,
        height: 2,
        cells: vec![b(0.125), b(0.5), b(0.25), b(1.0)],
    };
    let next = propagator::propagate(&cfg, &RejectIfGreater, &gauss(), &field, &prev);

    let pt = |i: usize| ((i % 2) as f64, (i / 2) as f64);
    let mut z = [0.0f64; 4];
    for s in 0..4 {
        let (sx, sy) = pt(s);
        let mut acc = 0.0f64;
        for t in 0..4 {
            let (tx, ty) = pt(t);
            acc = pdf(tx, ty, sx, sy, 1.0) + acc;
        }
        z[s] = acc;
    }
    assert!((z[0] - z[1]).abs() < 1e-15 && (z[0] - z[2]).abs() < 1e-15);
    for t in 0..4 {
        let (tx, ty) = pt(t);
        let mut acc = 0.0f64;
        for s in 0..4 {
            let (sx, sy) = pt(s);
            acc = acc + f64::from_bits(prev.cells[s]) * pdf(tx, ty, sx, sy, 1.0) / z[s];
        }
        assert_eq!(next.cells[t], b(acc), "cell {t} differs from direct computation");
    }
}

#[test]
fn degenerate_partition_sums_contribute_nothing() {
    let cfg = unit_config(3, 3);
    let field = sum_field(3, 3);
    let prev = rejection::initialize(
        &cfg,
        &RejectIfGreater,
        &gauss(),
        &field,
        b(2.0),
        b(1.0),
        b(1.0),
    );
    let next = propagator::propagate(&cfg, &RejectIfGreater, &ZeroDensity, &field, &prev);
    for t in 0..9 {
        assert_eq!(next.cells[t], b(0.0), "skipped sources must leave cell {t} at zero");
    }
}

#[test]
fn normalization_divides_by_maximum() {
    let mut g = DensityGrid {
        width: 2,
        height: 2,
        cells: vec![b(1.0), b(4.0), b(2.0), b(0.0)],
    };
    normalize::normalize_by_max(&mut g);
    assert_eq!(g.cells, vec![b(0.25), b(1.0), b(0.5), b(0.0)]);
}

#[test]
fn normalization_of_all_zero_grid_yields_nan() {
    let mut g = DensityGrid {
        width: 2,
        height: 2,
        cells: vec![b(0.0); 4],
    };
    normalize::normalize_by_max(&mut g);
    for i in 0..4 {
        assert!(f(g.cells[i]).is_nan(), "cell {i} should be zero over zero");
    }
}

#[test]
fn normalization_is_idempotent() {
    let mut g = DensityGrid {
        width: 2,
        height: 2,
        cells: vec![b(0.125), b(3.5), b(0.75), b(1.25)],
    };
    normalize::normalize_by_max(&mut g);
    let once = g.cells.clone();
    assert_eq!(normalize::max_of(&g), b(1.0));
    normalize::normalize_by_max(&mut g);
    assert_eq!(g.cells, once, "normalizing a normalized grid must be a no-op");
}

#[test]
fn pipeline_is_deterministic() {
    let cfg = unit_config(4, 4);
    let field = sum_field(4, 4);
    let a = pipeline::refine(&cfg, &RejectIfGreater, &gauss(), &field, b(4.0), b(2.0), b(2.0), 3);
    let c = pipeline::refine(&cfg, &RejectIfGreater, &gauss(), &field, b(4.0), b(2.0), b(2.0), 3);
    assert_eq!(a.cells, c.cells, "two runs over identical inputs must agree bit for bit");
    assert_eq!(a.cells.len(), 16);
}

#[test]
fn pipeline_matches_manual_rounds() {
    let cfg = unit_config(4, 4);
    let field = sum_field(4, 4);
    let refined = pipeline::refine(&cfg, &RejectIfGreater, &gauss(), &field, b(4.0), b(2.0), b(2.0), 2);
    let mut g = rejection::initialize(&cfg, &RejectIfGreater, &gauss(), &field, b(4.0), b(2.0), b(2.0));
    for _ in 0..2 {
        normalize::normalize_by_max(&mut g);
        g = propagator::propagate(&cfg, &RejectIfGreater, &gauss(), &field, &g);
    }
    assert_eq!(refined.cells, g.cells);
}
