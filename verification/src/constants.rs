//! Global sizing constants for the audio core.

use vstd::prelude::*;

verus! {

/// Output and capture sample rate in Hz.
pub const SAMPLE_RATE: u32 = 44_100;

/// Sample rate as a sample count per second.
pub const SAMPLE_RATE_SAMPLES: usize = 44_100;

/// Number of independent mono tracks.
pub const TRACK_COUNT: usize = 4;

/// Maximum recording duration per track, in seconds.
pub const MAX_DURATION_SECS: usize = 360;

/// Total capacity of one track buffer, in samples.
pub const TRACK_SAMPLES: usize = SAMPLE_RATE_SAMPLES * MAX_DURATION_SECS;

/// Number of drum instruments in the kit.
pub const INSTRUMENT_COUNT: usize = 6;

/// Number of steps in a sequencer pattern.
pub const STEP_COUNT: usize = 16;

/// Unity gain / full scale in the fixed-point sample format: values are
/// interpreted as multiples of `1 / FX_ONE`.
pub const FX_ONE: i64 = 65_536;

} // verus!
