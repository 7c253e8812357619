//! The injected collaborators: the accept/reject comparator and the
//! point-density evaluator (ordinarily an isotropic Gaussian).
//! Each is a one-method strategy whose executable method must return exactly
//! what its own specification function says.

use vstd::prelude::*;
use crate::bits;

verus! {

/// Decides whether a cell is rejected, given the scalar field's value at the
/// cell and at the reference (for initialization, the fixed reference point;
/// for propagation, the source cell).
pub trait Comparator: Sized {
    /// What the comparator decides, as a function of the two field values.
    spec fn spec_rejects(&self, value: u64, reference: u64) -> bool;

    /// Executes the decision.
    fn rejects(&self, value: u64, reference: u64) -> (r: bool)
        ensures
            r == self.spec_rejects(value, reference),
    ;
}

/// The standard comparator: a cell is rejected exactly when the field's
/// value at the cell exceeds (IEEE `>`) its value at the reference.
pub struct RejectIfGreater;

impl Comparator for RejectIfGreater {
    open spec fn spec_rejects(&self, value: u64, reference: u64) -> bool {
        bits::gt_bits(value, reference)
    }

    fn rejects(&self, value: u64, reference: u64) -> (r: bool) {
        bits::fgt(value, reference)
    }
}

/// The two transcendentals the Gaussian needs, injected because no software
/// implementation of them stands among the dependencies. Each method must be
/// a function of its argument alone, and the exponential's result must carry
/// a clear sign bit: the exponential's range is non-negative, so an
/// implementor returns the result's pattern with the sign bit cleared (which
/// only a NaN result could ever carry).
pub trait Transcendental: Sized {
    /// What the exponential returns, as a function of the argument pattern.
    spec fn spec_exp(&self, a: u64) -> u64;

    /// What the natural logarithm returns, as a function of the argument
    /// pattern.
    spec fn spec_ln(&self, a: u64) -> u64;

    /// The exponential of the double with pattern `a`.
    fn exp(&self, a: u64) -> (r: u64)
        ensures
            r == self.spec_exp(a),
            r & bits::SIGN_MASK == 0,
    ;

    /// The natural logarithm of the double with pattern `a`.
    fn ln(&self, a: u64) -> (r: u64)
        ensures
            r == self.spec_ln(a),
    ;
}

/// Evaluates the density of a point against a mean and a variance; the
/// standard evaluator is the isotropic bivariate Gaussian of `gauss`. A
/// density is never negative, so every result must carry a clear sign bit.
/// Deterministic: the method must be a function of its five arguments alone.
pub trait PointDensity: Sized {
    /// What the evaluator returns, as a function of point, mean and variance
    /// (all binary64 patterns).
    spec fn spec_density(&self, x0: u64, x1: u64, m0: u64, m1: u64, variance: u64) -> u64;

    /// Evaluates the density of `(x0, x1)` for mean `(m0, m1)`.
    fn density(&self, x0: u64, x1: u64, m0: u64, m1: u64, variance: u64) -> (r: u64)
        ensures
            r == self.spec_density(x0, x1, m0, m1, variance),
            r & bits::SIGN_MASK == 0,
    ;
}

} // verus!
