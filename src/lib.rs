//! Direction decisions for two-dimensional vectors in polar form.
//!
//! A vector's direction is recovered from its Cartesian components `(x, y)`
//! as `atan(y / x)` plus a whole number of quarter turns, chosen from the
//! signs of the two components alone. The axis-aligned components of a vector
//! point along an axis direction chosen from one sign. Those choices are made
//! here, on the signs as `bool` values (`true` for a non-negative sign,
//! `-0.0` counting as negative), and counted in quarter turns (`pi / 2`).
pub mod direction;
