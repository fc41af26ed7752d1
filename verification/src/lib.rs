//! Rasterizes a single glyph outline into per-pixel fill decisions.
//!
//! The geometric engine works in exact integer arithmetic: outline
//! coordinates are font design units (integers), and query points are
//! rationals given as numerators over a positive denominator. A
//! horizontal ray from the query point is cast through the outline's
//! segments — by an exact linear solve for line segments and by exact
//! integer de Casteljau subdivision for quadratic and cubic Bezier
//! curves — and even-odd parity of the crossing count decides fill.

pub mod curve;
pub mod fill;
pub mod metrics;
pub mod outline;
pub mod parity;
pub mod segment;
pub mod units;
