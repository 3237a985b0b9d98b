//! A single-voice, slowly wandering noise source.
//!
//! The generator produces one block ("quantum") of samples per render call.
//! Each sample is the latest value of a bounded random walk over the closed
//! interval `[-1, +1]`; a sample-and-hold timer with fractional hold lengths
//! decides when the walk advances, and a trigger signal can force a fresh
//! value and raise edge notifications.
//!
//! All amplitudes, step bounds and hold lengths are fixed-point numbers:
//! an `i64` counts millionths, so [`UNIT`] stands for 1.0. Randomness enters
//! only as explicit draws ([`Draw`]), so every render is a pure function of
//! its inputs; [`NoiseGenerator::process`] obtains those draws from the
//! operating system's entropy, while [`NoiseGenerator::process_with_draws`]
//! lets a caller replay a fixed script.

use vstd::prelude::*;

mod generator;
mod laws;
mod params;
mod rng;
mod run;
mod walk;

pub use generator::NoiseError;
pub use generator::NoiseGenerator;
pub use generator::TriggerEvent;
pub use params::clamp;
pub use params::get_parameter;
pub use walk::Draw;
pub use walk::generate_next_value;

verus! {

/// The fixed-point representation of 1.0: amplitudes count millionths.
pub const UNIT: i64 = 1_000_000;

/// The largest admissible hold length, 1e9 samples, in fixed-point units.
/// Hold lengths are clamped into `[0, HOLD_MAX]`; the bound is effectively
/// "unbounded above", only non-negativity matters.
pub const HOLD_MAX: i64 = 1_000_000_000_000_000;

/// The walk's seed value, 0.1 in fixed-point units: a deliberate non-zero
/// start so the walk is not degenerate before the first draw.
pub const INITIAL_SAMPLE: i64 = 100_000;

} // verus!
