//! Band-limited waveform synthesis buffer for sound-chip emulation.
//!
//! An emulator describes a waveform as a sparse stream of amplitude changes
//! ("deltas"), each tagged with a time on the chip's input clock.  The
//! [`BlipBuf`] accumulator resamples that stream to a fixed output rate:
//! a fixed-point factor converts clock time to sample positions, each delta
//! is spread over a small window by a band-limited step response, and the
//! accumulated second differences are integrated, high-pass filtered and
//! clamped into 16-bit PCM samples on demand.

use vstd::prelude::*;

pub mod arith;
pub mod buffer;
pub mod reconstruct;
pub mod step_table;

pub use arith::clamp;
pub use arith::spec_clamp;
pub use buffer::BlipBuf;
pub use buffer::BlipError;
pub use buffer::BlipView;

verus! {

/// Maximum `clock_rate / sample_rate` ratio.  For a given `sample_rate`,
/// `clock_rate` must not be greater than `sample_rate * MAX_RATIO`.
pub const MAX_RATIO: usize = 0x10_0000;

/// Maximum number of samples that can be generated from one time frame.
pub const MAX_FRAME: u32 = 4000;

/// Number of low bits of fixed-point time that sit below a whole output
/// sample: `PRE_SHIFT + 20`, with `PRE_SHIFT = 32`.
pub const TIME_BITS: u32 = 52;

/// One whole output sample in fixed-point time: `1 << TIME_BITS`.
pub const TIME_UNIT: u64 = 0x10_0000_0000_0000;

/// Scale dropped first when a clock time is mapped to a buffer position:
/// `1 << PRE_SHIFT`, with `PRE_SHIFT = 32`.
pub const PRE_UNIT: u64 = 0x1_0000_0000;

/// One whole output sample after the pre-shift: `1 << (TIME_BITS - PRE_SHIFT)`.
pub const FRAC_UNIT: u64 = 0x10_0000;

/// Number of interpolation phases of the step table: `1 << PHASE_BITS`,
/// with `PHASE_BITS = 5`.
pub const PHASE_COUNT: usize = 32;

/// Unit amplitude of a stored delta: `1 << DELTA_BITS`, with `DELTA_BITS = 15`.
pub const DELTA_UNIT: i32 = 0x8000;

/// High-pass feedback weight: `1 << (DELTA_BITS - BASS_SHIFT)`, with
/// `BASS_SHIFT = 9`.
pub const BASS_UNIT: i32 = 64;

/// Taps in one half of the band-limited step response.
pub const HALF_WIDTH: usize = 8;

/// Sub-sample slack a delta may land past the end of a frame.
pub const END_FRAME_EXTRA: usize = 2;

/// Guard slots past the requested capacity: the widest interpolation window
/// plus the frame-boundary slack, `HALF_WIDTH * 2 + END_FRAME_EXTRA`.
pub const BUF_EXTRA: usize = 18;

/// Smallest conversion factor a valid configuration can produce:
/// `TIME_UNIT / MAX_RATIO`.
pub const MIN_FACTOR: u64 = 0x1_0000_0000;

/// Largest 16-bit output sample.
pub const MAX_SAMPLE: i32 = 32767;

/// Smallest 16-bit output sample.
pub const MIN_SAMPLE: i32 = -32768;

} // verus!
