//! The discretized domain: a dense row-major W by H grid with fixed per-axis
//! spacings, and the validated configuration threaded through every pass.

use vstd::prelude::*;
use crate::bits;

verus! {

/// Why a configuration was refused.
#[derive(Clone, Copy, Debug, PartialEq, Eq, Structural)]
pub enum ConfigError {
    /// A grid dimension is zero.
    EmptyGrid,
    /// The cell count `width * height` does not fit in `usize`.
    TooManyCells,
    /// A cell spacing is not a strictly positive finite double.
    BadSpacing,
    /// The variance is not a strictly positive finite double.
    BadVariance,
}

/// The immutable configuration of one run: grid dimensions, per-axis cell
/// spacings and the kernel variance, the latter three as binary64 patterns.
#[derive(Clone, Copy, Debug, PartialEq, Eq, Structural)]
pub struct Config {
    pub width: usize,
    pub height: usize,
    pub dx: u64,
    pub dy: u64,
    pub variance: u64,
}

impl Config {
    /// Well-formedness: both dimensions positive, the cell count
    /// representable, spacings and variance strictly positive finite.
    pub open spec fn wf(self) -> bool {
        &&& 0 < self.width
        &&& 0 < self.height
        &&& self.width * self.height <= usize::MAX
        &&& bits::is_pos_real_bits(self.dx)
        &&& bits::is_pos_real_bits(self.dy)
        &&& bits::is_pos_real_bits(self.variance)
    }

    /// The number of cells, as a mathematical integer.
    pub open spec fn spec_cells(self) -> int {
        self.width * self.height
    }

    /// The x coordinate of cell `i` in continuous space: `(i % width) * dx`.
    pub open spec fn px(self, i: int) -> u64 {
        bits::mul_bits(bits::double_of_int(i % (self.width as int)), self.dx)
    }

    /// The y coordinate of cell `i` in continuous space: `(i / width) * dy`.
    pub open spec fn py(self, i: int) -> u64 {
        bits::mul_bits(bits::double_of_int(i / (self.width as int)), self.dy)
    }

    /// Validates a configuration, eagerly refusing a zero-sized grid, an
    /// unrepresentable cell count, and non-positive or non-finite spacings
    /// or variance, in that order of checks.
    pub fn new(width: usize, height: usize, dx: u64, dy: u64, variance: u64) -> (r: Result<
        Config,
        ConfigError,
    >)
        ensures
            r == Err::<Config, ConfigError>(ConfigError::EmptyGrid) <==> (width == 0 || height
                == 0),
            r == Err::<Config, ConfigError>(ConfigError::TooManyCells) <==> (width != 0 && height
                != 0 && width * height > usize::MAX),
            r == Err::<Config, ConfigError>(ConfigError::BadSpacing) <==> (width != 0 && height != 0
                && width * height <= usize::MAX && !(bits::is_pos_real_bits(dx)
                && bits::is_pos_real_bits(dy))),
            r == Err::<Config, ConfigError>(ConfigError::BadVariance) <==> (width != 0 && height
                != 0 && width * height <= usize::MAX && bits::is_pos_real_bits(dx)
                && bits::is_pos_real_bits(dy) && !bits::is_pos_real_bits(variance)),
            r is Ok <==> (Config { width, height, dx, dy, variance }).wf(),
            r is Ok ==> r == Ok::<Config, ConfigError>(Config { width, height, dx, dy, variance }),
    {
        if width == 0 || height == 0 {
            return Err(ConfigError::EmptyGrid);
        }
        if width > usize::MAX / height {
            proof {
                lemma_div_bound(width as int, height as int, usize::MAX as int);
            }
            return Err(ConfigError::TooManyCells);
        }
        proof {
            lemma_div_bound(width as int, height as int, usize::MAX as int);
        }
        if !(bits::is_pos_real(dx) && bits::is_pos_real(dy)) {
            return Err(ConfigError::BadSpacing);
        }
        if !bits::is_pos_real(variance) {
            return Err(ConfigError::BadVariance);
        }
        Ok(Config { width, height, dx, dy, variance })
    }

    /// The number of cells of the grid.
    pub fn cells(&self) -> (n: usize)
        requires
            self.wf(),
        ensures
            n == self.spec_cells(),
    {
        self.width * self.height
    }

    /// The continuous x coordinate of cell `i`.
    pub fn point_x(&self, i: usize) -> (r: u64)
        requires
            self.wf(),
            i < self.spec_cells(),
        ensures
            r == self.px(i as int),
    {
        bits::fmul(bits::from_uint(i % self.width), self.dx)
    }

    /// The continuous y coordinate of cell `i`.
    pub fn point_y(&self, i: usize) -> (r: u64)
        requires
            self.wf(),
            i < self.spec_cells(),
        ensures
            r == self.py(i as int),
    {
        bits::fmul(bits::from_uint(i / self.width), self.dy)
    }
}

/// For positive `w`, `h`: `w > m / h` exactly when `w * h > m`, the guard
/// that keeps the cell count representable.
proof fn lemma_div_bound(w: int, h: int, m: int)
    requires
        0 < w,
        0 < h,
        0 <= m,
    ensures
        w > m / h <==> w * h > m,
{
    assert(w > m / h <==> w * h > m) by (nonlinear_arith)
        requires
            0 < w,
            0 < h,
            0 <= m,
    ;
}

/// A dense row-major grid of per-cell mass values, one binary64 pattern per
/// cell. Produced whole by each pass; never resized.
pub struct DensityGrid {
    pub width: usize,
    pub height: usize,
    pub cells: Vec<u64>,
}

impl DensityGrid {
    /// The grid's cells as a sequence, in row-major order.
    pub open spec fn view(self) -> Seq<u64> {
        self.cells@
    }

    /// Well-formedness: exactly `width * height` cells.
    pub open spec fn wf(self) -> bool {
        &&& 0 < self.width
        &&& 0 < self.height
        &&& self.cells.len() == self.width * self.height
    }

    /// Holds when the grid's shape matches the configuration.
    pub open spec fn matches(self, cfg: Config) -> bool {
        self.width == cfg.width && self.height == cfg.height && self.cells.len()
            == cfg.spec_cells()
    }

    /// The number of cells.
    pub fn len(&self) -> (n: usize)
        ensures
            n == self@.len(),
    {
        self.cells.len()
    }

    /// The value of cell `i`.
    pub fn get(&self, i: usize) -> (r: u64)
        requires
            i < self@.len(),
        ensures
            r == self@[i as int],
    {
        self.cells[i]
    }
}

} // verus!
