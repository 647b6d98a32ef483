//! A weapon damage model: damage vectors over thirteen fixed elements,
//! a scaling transform that snaps magnitudes onto a sixteen-step grid
//! proportional to the vector's total, and an expected damage-per-second
//! figure derived from crit chance, crit multiplier, multishot and fire rate.
//!
//! All magnitudes are exact rational numbers, so every result is stated and
//! proved exactly rather than up to floating-point error.

pub mod damage;
pub mod laws;
pub mod rational;
pub mod sums;
pub mod weapon;
