//! An iteratively refined probability density over a discretized 2D domain.
//!
//! A rejection-style initializer builds a density grid against an external
//! scalar field, and a propagation pass repeatedly redistributes each cell's
//! mass to every other cell through a pairwise kernel, normalized per source
//! by that source's partition sum. Between passes the grid is rescaled by its
//! maximum for display.
//!
//! Every scalar is an IEEE 754 binary64 number carried as its raw bit
//! pattern (`u64`); see `bits` for the model.

pub mod bits;
pub mod gauss;
pub mod grid;
pub mod kernel;
pub mod normalize;
pub mod pipeline;
pub mod pixel;
pub mod propagator;
pub mod rejection;
