//! Analysis and in-place patching of the conformance level declared in a
//! coded video stream's sequence parameters.
//!
//! The crate covers the level/tier limit table and selection algorithm, the
//! rational-arithmetic statistics accumulator that derives the quantities the
//! selector needs, and the bit-precise patcher that rewrites the 5-bit level
//! field (and the conditional 1-bit tier field) inside an otherwise untouched
//! byte record.

pub mod bits;
pub mod compress;
pub mod error;
pub mod ivf;
pub mod level;
pub mod obu;
pub mod patch;
pub mod ratio;
pub mod selector;
pub mod stats;
pub mod stream;
