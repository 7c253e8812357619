//! The isotropic bivariate Gaussian density, over bit patterns:
//! `exp(-0.5 * (((x0-m0)^2 + (x1-m1)^2) / variance + 2 * ln(variance * 2 * pi)))`,
//! with the squared differences summed by a left fold from zero. All
//! arithmetic is the engine's named IEEE 754 operations; only the
//! exponential and the logarithm are injected. A positive variance gives a
//! finite, strictly positive density; the evaluator does not check this
//! (callers must, as the configuration validator does).

use vstd::prelude::*;
use crate::bits;
use crate::kernel::{PointDensity, Transcendental};

verus! {

/// The pattern of 2.0: the dimension count, and the doubling of pi.
pub const TWO_BITS: u64 = 0x4000_0000_0000_0000;

/// The pattern of pi.
pub const PI_BITS: u64 = 0x4009_21FB_5444_2D18;

/// The pattern of -0.5, the exponent's scale.
pub const NEG_HALF_BITS: u64 = 0xBFE0_0000_0000_0000;

/// The Gaussian point-density evaluator, generic in the injected
/// transcendentals.
pub struct Gaussian<T: Transcendental> {
    pub trans: T,
}

impl<T: Transcendental> PointDensity for Gaussian<T> {
    open spec fn spec_density(&self, x0: u64, x1: u64, m0: u64, m1: u64, variance: u64) -> u64 {
        let d0 = bits::sub_bits(x0, m0);
        let d1 = bits::sub_bits(x1, m1);
        let ssq = bits::add_bits(
            bits::add_bits(bits::POS_ZERO, bits::mul_bits(d0, d0)),
            bits::mul_bits(d1, d1),
        );
        let lnterm = self.trans.spec_ln(bits::mul_bits(bits::mul_bits(variance, TWO_BITS), PI_BITS));
        let inner = bits::add_bits(
            bits::div_bits(ssq, variance),
            bits::mul_bits(TWO_BITS, lnterm),
        );
        self.trans.spec_exp(bits::mul_bits(NEG_HALF_BITS, inner))
    }

    fn density(&self, x0: u64, x1: u64, m0: u64, m1: u64, variance: u64) -> (r: u64) {
        let d0 = bits::fsub(x0, m0);
        let d1 = bits::fsub(x1, m1);
        let ssq = bits::fadd(bits::fadd(bits::POS_ZERO, bits::fmul(d0, d0)), bits::fmul(d1, d1));
        let lnterm = self.trans.ln(bits::fmul(bits::fmul(variance, TWO_BITS), PI_BITS));
        let inner = bits::fadd(bits::fdiv(ssq, variance), bits::fmul(TWO_BITS, lnterm));
        self.trans.exp(bits::fmul(NEG_HALF_BITS, inner))
    }
}

} // verus!
