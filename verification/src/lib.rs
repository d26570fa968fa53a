//! A differential-evolution optimizer over a fixed-dimensional search space.
//!
//! Positions and fitness values are IEEE 754 binary64 numbers, carried
//! everywhere as their bit patterns (`u64`). Ordering, sign and finiteness
//! of such values are plain bit logic and are verified here; the four
//! arithmetic operations go through a software floating-point library.

pub mod bits;
pub mod candidate;
pub mod donors;
pub mod engine;
pub mod fp;
pub mod rng;
pub mod strategy;
