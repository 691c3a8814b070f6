//! Core of a dual-channel analog-trigger overlay: fixed-capacity sliding
//! windows of samples, a carry-forward sampling tick that keeps both channels
//! length-synchronized, and the pure conversion from a window snapshot to
//! plot-ready coordinates.
//!
//! Samples are normalized pressures in `[0.0, 1.0]`, held here as fixed-point
//! integers: a reading of `1.0` is stored as [`SAMPLE_SCALE`] units.

use vstd::prelude::*;

pub mod points;
pub mod ring;
pub mod sampler;

verus! {

/// Number of samples each channel's sliding window holds.
pub const WINDOW_SIZE: usize = 500;

/// Fixed-point scale: a full trigger pull (`1.0`) is stored as this many units.
pub const SAMPLE_SCALE: u32 = 1_000_000;

} // verus!
