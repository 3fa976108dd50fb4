//! Fixed-dimension integer vectors with verified arithmetic.
//!
//! A [`Vector`] is an ordered, fixed-length sequence of `N` components of
//! type `i64`, with elementwise arithmetic, reductions (sum, dot product,
//! squared magnitude, extrema), componentwise sign operations, casts to and
//! from the narrow [`Vector32`] form, and a parenthesized display rendering.

mod cast;
pub mod display;
pub mod laws;
pub mod model;
mod ops;
mod reductions;
mod vector;

pub use cast::lemma_view32_len;
pub use cast::CastError;
pub use cast::Vector32;
pub use vector::lemma_view_len;
pub use vector::Vector;
