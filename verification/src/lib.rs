//! A procedural gradient-noise core: seeded permutation tables, the integer
//! lattice hashing and gradient-direction catalogs that drive Perlin noise,
//! and the multi-octave fractal combinator's seed and source bookkeeping.
//!
//! Everything here is integer-valued and immutable once built; the
//! floating-point blending that turns hashes and gradients into a scalar
//! field lives with the callers.

pub mod gradient;
pub mod hybridmulti;
pub mod perlin;
pub mod permutationtable;

pub use hybridmulti::HybridMulti;
pub use perlin::Perlin;
pub use permutationtable::PermutationTable;
