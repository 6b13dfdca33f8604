//! The resampling accumulator itself.

use vstd::arithmetic::div_mod::lemma_div_denominator;
use vstd::arithmetic::div_mod::lemma_div_is_ordered;
use vstd::arithmetic::div_mod::lemma_div_multiples_vanish;
use vstd::arithmetic::div_mod::lemma_fundamental_div_mod;
use vstd::arithmetic::div_mod::lemma_fundamental_div_mod_converse;
use vstd::arithmetic::div_mod::lemma_mod_bound;
use vstd::arithmetic::mul::lemma_mul_inequality;
use vstd::arithmetic::mul::lemma_mul_upper_bound;
use vstd::prelude::*;
use vstd::std_specs::vec::axiom_spec_len;
use vstd::wrapping::i32_specs;

use crate::arith::clamp;
use crate::arith::lemma_crop_absorb;
use crate::arith::lemma_crop_small;
use crate::arith::lemma_wadd_is_crop;
use crate::arith::lemma_wsub_is_crop;
use crate::arith::shift_down_15;
use crate::reconstruct::integrator_after;
use crate::reconstruct::next_sum;
use crate::reconstruct::removed;
use crate::reconstruct::sample_at;
use crate::step_table::bl;
use crate::step_table::bl_entry;
use crate::step_table::lemma_window_normalized;
use crate::step_table::step_coeff;
use crate::step_table::step_coeff2;
use crate::step_table::step_coeff2_sum;
use crate::step_table::step_coeff_sum;
use crate::BASS_UNIT;
use crate::BUF_EXTRA;
use crate::DELTA_UNIT;
use crate::FRAC_UNIT;
use crate::HALF_WIDTH;
use crate::MAX_FRAME;
use crate::MAX_RATIO;
use crate::MIN_FACTOR;
use crate::PHASE_COUNT;
use crate::PRE_UNIT;
use crate::TIME_UNIT;

verus! {

/// Why an operation was refused.
#[derive(Clone, Copy, PartialEq, Eq, Structural, Debug)]
pub enum BlipError {
    /// The requested clock rate exceeds `MAX_RATIO` times the sample rate
    /// (or the conversion factor cannot be represented), so fixed-point
    /// time would overflow.
    RateOutOfRange,
}

/// Sample buffer that resamples from an input clock rate to an output
/// sample rate.
pub struct BlipBuf {
    /// Fixed-point ratio of sample rate to clock rate, scaled by
    /// `TIME_UNIT` and rounded up.
    factor: u64,
    /// Fractional sample position carried across frame boundaries, in
    /// fixed-point time units.
    offset: u64,
    /// Running reconstruction sum, persisted across reads.
    integrator: i32,
    /// Samples at the front of `samples` ready to be read.
    avail: usize,
    /// Second-difference accumulators: the capacity plus `BUF_EXTRA` guard
    /// slots for the interpolation window.
    samples: Vec<i32>,
}

/// The accumulator's abstract state.
pub struct BlipView {
    pub factor: u64,
    pub offset: u64,
    pub integrator: i32,
    pub avail: usize,
    pub samples: Seq<i32>,
}

impl View for BlipBuf {
    type V = BlipView;

    closed spec fn view(&self) -> BlipView {
        BlipView {
            factor: self.factor,
            offset: self.offset,
            integrator: self.integrator,
            avail: self.avail,
            samples: self.samples@,
        }
    }
}

/// Fixed-point time reached `t` clocks into the current frame.
pub open spec fn spec_frame_time(factor: u64, offset: u64, t: int) -> int {
    t * factor + offset
}

/// Whole output samples completed `t` clocks into the current frame.
pub open spec fn spec_frame_samples(factor: u64, offset: u64, t: int) -> int {
    spec_frame_time(factor, offset, t) / TIME_UNIT as int
}

/// Fractional sample position left over after a frame of `t` clocks.
pub open spec fn spec_frame_remainder(factor: u64, offset: u64, t: int) -> int {
    spec_frame_time(factor, offset, t) % TIME_UNIT as int
}

/// The fewest clocks that stretch the current frame by at least `count`
/// whole samples: none when the pending fraction already covers them, else
/// the missing fixed-point time divided by the factor, rounded up.
pub open spec fn spec_clocks_needed(factor: u64, offset: u64, count: int) -> int {
    if count * TIME_UNIT < offset {
        0
    } else {
        (count * TIME_UNIT - offset + factor - 1) / factor as int
    }
}

/// Rounding safety: ending a frame after exactly
/// `spec_clocks_needed(factor, offset, n)` clocks completes at least `n`
/// whole samples, for every configuration and carried fraction.
pub proof fn lemma_clocks_needed_sufficient(factor: u64, offset: u64, n: int)
    requires
        factor >= 1,
        n >= 0,
    ensures
        spec_frame_samples(factor, offset, spec_clocks_needed(factor, offset, n)) >= n,
{
    let needed = n * TIME_UNIT;
    assert((TIME_UNIT as int * n) / TIME_UNIT as int == n) by {
        lemma_div_multiples_vanish(n, TIME_UNIT as int);
    };
    if needed < offset {
        assert(spec_frame_time(factor, offset, 0) == offset);
        lemma_div_is_ordered(needed, offset as int, TIME_UNIT as int);
    } else {
        let c = (needed - offset + factor - 1) / factor as int;
        assert(c * factor >= needed - offset) by {
            lemma_fundamental_div_mod(needed - offset + factor - 1, factor as int);
            lemma_mod_bound(needed - offset + factor - 1, factor as int);
        };
        lemma_div_is_ordered(needed, c * factor + offset, TIME_UNIT as int);
    }
}

/// The clock count for up to `MAX_FRAME` samples always fits the 32-bit
/// result: with a ratio within `MAX_RATIO`, one sample costs at most
/// `MAX_RATIO` clocks, and `MAX_FRAME * MAX_RATIO` is still below
/// `u32::MAX`.  This is what bounds `MAX_FRAME`.
pub proof fn lemma_clocks_needed_fits(factor: u64, offset: u64, n: int)
    requires
        MIN_FACTOR <= factor,
        0 <= n <= MAX_FRAME,
    ensures
        spec_clocks_needed(factor, offset, n) <= u32::MAX,
{
    let needed = n * TIME_UNIT;
    if needed < offset {
    } else {
        let c = (needed - offset + factor - 1) / factor as int;
        lemma_fundamental_div_mod(needed - offset + factor - 1, factor as int);
        lemma_mod_bound(needed - offset + factor - 1, factor as int);
        assert(c * factor <= needed + factor - 1);
        assert(c <= n * (MAX_RATIO as int) + 1) by (nonlinear_arith)
            requires
                c * factor <= needed + factor - 1,
                needed == n * TIME_UNIT,
                TIME_UNIT == (MAX_RATIO as int) * (MIN_FACTOR as int),
                MIN_FACTOR <= factor,
                0 <= n,
        ;
        assert(n * (MAX_RATIO as int) + 1 <= MAX_FRAME * (MAX_RATIO as int) + 1)
            by (nonlinear_arith)
            requires
                0 <= n <= MAX_FRAME,
        ;
    }
}

/// With at most one output sample per input clock and a fraction below one
/// sample, `spec_clocks_needed` is also never an overestimate: exactly
/// `spec_clocks_needed(factor, offset, n)` clocks complete no more than
/// `n` whole samples.  With `lemma_clocks_needed_sufficient`, exactly `n`.
pub proof fn lemma_clocks_needed_no_excess(factor: u64, offset: u64, n: int)
    requires
        1 <= factor <= TIME_UNIT,
        offset < TIME_UNIT,
        0 <= n,
    ensures
        spec_frame_samples(factor, offset, spec_clocks_needed(factor, offset, n)) <= n,
{
    let needed = n * TIME_UNIT;
    if needed < offset {
        assert(spec_frame_time(factor, offset, 0) == offset);
        lemma_div_is_ordered(offset as int, needed + TIME_UNIT - 1, TIME_UNIT as int);
        lemma_fundamental_div_mod_converse(
            needed + TIME_UNIT - 1,
            TIME_UNIT as int,
            n,
            TIME_UNIT - 1,
        );
    } else {
        let c = (needed - offset + factor - 1) / factor as int;
        lemma_fundamental_div_mod(needed - offset + factor - 1, factor as int);
        lemma_mod_bound(needed - offset + factor - 1, factor as int);
        assert(c * factor + offset <= needed + factor - 1);
        lemma_div_is_ordered(c * factor + offset, needed + TIME_UNIT - 1, TIME_UNIT as int);
        lemma_fundamental_div_mod_converse(
            needed + TIME_UNIT - 1,
            TIME_UNIT as int,
            n,
            TIME_UNIT - 1,
        );
    }
}

/// Fixed-point buffer position of clock `t`: frame time with the low
/// `PRE_SHIFT` bits dropped, leaving `FRAC_UNIT` per whole sample.
pub open spec fn spec_fixed(factor: u64, offset: u64, t: int) -> int {
    spec_frame_time(factor, offset, t) / PRE_UNIT as int
}

/// Buffer slot (relative to the pending samples) where the energy of a
/// delta at clock `t` begins to land.
pub open spec fn spec_pos(factor: u64, offset: u64, t: int) -> int {
    spec_fixed(factor, offset, t) / FRAC_UNIT as int
}

/// The slot where a delta lands is the number of whole samples its clock
/// time completes: dropping `PRE_SHIFT` bits and then a further
/// `FRAC_UNIT` is dropping one whole `TIME_UNIT`.  So a delta injected up
/// to `END_FRAME_EXTRA` samples' worth of clocks past a frame boundary
/// still keeps the synthesizer inside the guard region: its window start
/// `avail + spec_pos` stays within `END_FRAME_EXTRA` of what `end_frame`
/// will make pending, and the buffer extends `BUF_EXTRA` slots beyond the
/// capacity.
pub proof fn lemma_pos_is_frame_samples(factor: u64, offset: u64, t: int)
    requires
        t >= 0,
    ensures
        spec_pos(factor, offset, t) == spec_frame_samples(factor, offset, t),
{
    lemma_div_denominator(spec_frame_time(factor, offset, t), PRE_UNIT as int, FRAC_UNIT as int);
}

/// Which of the `PHASE_COUNT` interpolation phases clock `t` falls on.
pub open spec fn spec_phase(factor: u64, offset: u64, t: int) -> int {
    (spec_fixed(factor, offset, t) / 0x8000) % PHASE_COUNT as int
}

/// Linear interpolation fraction between phase `spec_phase` and the next,
/// in units of `1 / DELTA_UNIT`.
pub open spec fn spec_interp(factor: u64, offset: u64, t: int) -> int {
    spec_fixed(factor, offset, t) % DELTA_UNIT as int
}

/// Interpolation fraction used by the low-quality synthesizer: the
/// sub-sample position itself, scaled to `DELTA_UNIT` (the top 15 of the
/// 20 fraction bits).
pub open spec fn spec_interp_fast(factor: u64, offset: u64, t: int) -> int {
    (spec_fixed(factor, offset, t) / 0x20) % DELTA_UNIT as int
}

/// The part of a delta handed to the next interpolation phase:
/// `delta * interp / DELTA_UNIT`, with the product wrapped to 32 bits as
/// the accumulators are.
pub open spec fn spec_delta2(delta: i32, interp: int) -> int {
    i32_specs::signed_crop(delta * interp) as int / DELTA_UNIT as int
}

/// The part of a delta kept by the selected phase: what is left after
/// `spec_delta2` is split off.
pub open spec fn spec_delta1(delta: i32, interp: int) -> int {
    i32_specs::signed_crop(delta - spec_delta2(delta, interp)) as int
}

/// Total of what the high-quality synthesizer adds over its 16-slot
/// window (before any 32-bit wrap): the first `n` slots' shares of the
/// split delta.
pub open spec fn spec_delta_total(phase: int, n: int, d1: int, d2: int) -> int
    decreases n,
{
    if n <= 0 {
        0
    } else {
        spec_delta_total(phase, n - 1, d1, d2) + step_coeff(phase, n - 1) * d1 + step_coeff2(
            phase,
            n - 1,
        ) * d2
    }
}

/// The window shares factor through the coefficient sums.
proof fn lemma_delta_total_factors(phase: int, n: int, d1: int, d2: int)
    ensures
        spec_delta_total(phase, n, d1, d2) == step_coeff_sum(phase, n) * d1 + step_coeff2_sum(
            phase,
            n,
        ) * d2,
    decreases n,
{
    if n <= 0 {
    } else {
        lemma_delta_total_factors(phase, n - 1, d1, d2);
        assert((step_coeff_sum(phase, n - 1) + step_coeff(phase, n - 1)) * d1 == step_coeff_sum(
            phase,
            n - 1,
        ) * d1 + step_coeff(phase, n - 1) * d1) by (nonlinear_arith);
        assert((step_coeff2_sum(phase, n - 1) + step_coeff2(phase, n - 1)) * d2 == step_coeff2_sum(
            phase,
            n - 1,
        ) * d2 + step_coeff2(phase, n - 1) * d2) by (nonlinear_arith);
    }
}

/// Energy conservation: as long as the split suffers no 32-bit wrap, one
/// high-quality injection adds exactly `delta * DELTA_UNIT` to the buffer
/// in total — the normalized step table scales the delta, it never gains
/// or loses amplitude, whatever the phase and interpolation fraction.
pub proof fn lemma_add_delta_energy(phase: int, delta: i32, interp: int)
    requires
        0 <= phase < 32,
        0 <= interp < DELTA_UNIT,
        -0x1_0000 <= delta <= 0x1_0000,
    ensures
        spec_delta_total(
            phase,
            16,
            spec_delta1(delta, interp),
            spec_delta2(delta, interp),
        ) == DELTA_UNIT * delta,
{
    assert(-0x8000_0000 <= delta * interp < 0x8000_0000) by (nonlinear_arith)
        requires
            -0x1_0000 <= delta <= 0x1_0000,
            0 <= interp < 0x8000,
    ;
    lemma_crop_small(delta * interp);
    let d2 = spec_delta2(delta, interp);
    assert(-0x1_0000 <= d2 < 0x1_0000) by {
        lemma_fundamental_div_mod(delta * interp, DELTA_UNIT as int);
        lemma_mod_bound(delta * interp, DELTA_UNIT as int);
    };
    lemma_crop_small(delta - d2);
    let d1 = spec_delta1(delta, interp);
    lemma_window_normalized(phase);
    lemma_delta_total_factors(phase, 16, d1, d2);
}

/// The buffer after the high-quality synthesizer injects `delta` at clock
/// `t`: each slot of the 16-tap window starting `spec_pos` slots past the
/// pending samples accumulates its step-table share of the split delta,
/// wrapping mod `2^32`; every other slot is untouched.
pub open spec fn spec_add_delta_samples(
    s: Seq<i32>,
    avail: int,
    factor: u64,
    offset: u64,
    t: int,
    delta: i32,
) -> Seq<i32> {
    let oi = avail + spec_pos(factor, offset, t);
    let phase = spec_phase(factor, offset, t);
    let d2 = spec_delta2(delta, spec_interp(factor, offset, t));
    let d1 = spec_delta1(delta, spec_interp(factor, offset, t));
    Seq::new(
        s.len(),
        |j: int|
            if oi <= j < oi + 16 {
                i32_specs::signed_crop(
                    s[j] + step_coeff(phase, j - oi) * d1 + step_coeff2(phase, j - oi) * d2,
                )
            } else {
                s[j]
            },
    )
}

/// The buffer after the low-quality synthesizer injects `delta` at clock
/// `t`: the whole delta, split by the interpolation fraction, lands on two
/// adjacent slots in the middle of the window, wrapping mod `2^32`.
pub open spec fn spec_add_delta_fast_samples(
    s: Seq<i32>,
    avail: int,
    factor: u64,
    offset: u64,
    t: int,
    delta: i16,
) -> Seq<i32> {
    let oi = avail + spec_pos(factor, offset, t);
    let interp = spec_interp_fast(factor, offset, t);
    Seq::new(
        s.len(),
        |j: int|
            if j == oi + 7 {
                i32_specs::signed_crop(s[j] + delta * DELTA_UNIT - delta * interp)
            } else if j == oi + 8 {
                i32_specs::signed_crop(s[j] + delta * interp)
            } else {
                s[j]
            },
    )
}

/// How far apart consecutive output samples land in the destination:
/// every other slot when interleaving stereo, else every slot.
pub open spec fn spec_step(stereo: bool) -> int {
    if stereo {
        2
    } else {
        1
    }
}

/// How many samples one read call returns: as many as the destination can
/// take (half its slots when interleaving stereo), but never more than are
/// available.
pub open spec fn spec_read_count(buf_len: int, stereo: bool, avail: int) -> int {
    let want = if stereo {
        (buf_len + 1) / 2
    } else {
        buf_len
    };
    if want <= avail {
        want
    } else {
        avail
    }
}

/// The conversion factor a rate pair configures: `TIME_UNIT` scaled by the
/// true sample-per-clock ratio, rounded up so the clocks needed for a
/// sample count are never underestimated.
pub open spec fn spec_factor(clock_rate: u64, sample_rate: u64) -> int {
    (TIME_UNIT * sample_rate + clock_rate - 1) / clock_rate as int
}

/// The rate pairs the accumulator accepts: a positive clock rate at most
/// `MAX_RATIO` times the sample rate, whose conversion factor fits the
/// fixed-point word.
pub open spec fn rates_ok(clock_rate: u64, sample_rate: u64) -> bool {
    &&& clock_rate >= 1
    &&& clock_rate <= MAX_RATIO * sample_rate
    &&& spec_factor(clock_rate, sample_rate) <= u64::MAX
}

impl BlipBuf {
    /// How many samples the caller may hold pending at once.
    pub open spec fn spec_capacity(&self) -> int {
        self@.samples.len() - BUF_EXTRA
    }

    /// Well-formedness: the buffer holds its guard region, pending samples
    /// never exceed the capacity, and the factor encodes a ratio within
    /// `MAX_RATIO`.
    pub open spec fn wf(&self) -> bool {
        &&& BUF_EXTRA <= self@.samples.len()
        &&& self@.avail + BUF_EXTRA <= self@.samples.len()
        &&& MIN_FACTOR <= self@.factor
    }

    /// Creates a new buffer that can hold at most `sample_count` samples,
    /// with rates set so that there are `MAX_RATIO` clocks per sample.
    pub fn new(sample_count: u32) -> (r: BlipBuf)
        requires
            sample_count + BUF_EXTRA <= usize::MAX,
        ensures
            r.wf(),
            r@.factor == MIN_FACTOR,
            r@.offset == MIN_FACTOR / 2,
            r@.integrator == 0,
            r@.avail == 0,
            r@.samples.len() == sample_count + BUF_EXTRA,
            forall|i: int| 0 <= i < r@.samples.len() ==> r@.samples[i] == 0,
    {
        let len: usize = sample_count as usize + BUF_EXTRA;
        proof {
            lemma_fundamental_div_mod_converse(
                TIME_UNIT as int,
                MAX_RATIO as int,
                MIN_FACTOR as int,
                0,
            );
        }
        let mut blip = BlipBuf {
            factor: TIME_UNIT / (MAX_RATIO as u64),
            offset: 0,
            integrator: 0,
            avail: 0,
            samples: vec![0i32; len],
        };
        blip.clear();
        blip
    }

    /// Clears the whole buffer: afterwards `samples_avail() == 0`, the
    /// integrator is at rest, and the fractional position is re-centered at
    /// half the factor (accommodating either rounding direction of the
    /// factor without ever drifting).
    pub fn clear(&mut self)
        requires
            old(self).wf(),
        ensures
            final(self).wf(),
            final(self)@.factor == old(self)@.factor,
            final(self)@.offset == old(self)@.factor / 2,
            final(self)@.integrator == 0,
            final(self)@.avail == 0,
            final(self)@.samples.len() == old(self)@.samples.len(),
            forall|i: int| 0 <= i < final(self)@.samples.len() ==> final(self)@.samples[i] == 0,
    {
        self.offset = self.factor / 2;
        self.avail = 0;
        self.integrator = 0;
        let len = self.samples.len();
        let mut i: usize = 0;
        while i < len
            invariant
                i <= len,
                self@.samples.len() == len,
                self@.factor == old(self)@.factor,
                self@.offset == old(self)@.factor / 2,
                self@.integrator == 0,
                self@.avail == 0,
                forall|j: int| 0 <= j < i ==> self@.samples[j] == 0,
            decreases len - i,
        {
            self.samples[i] = 0;
            i += 1;
        }
    }

    /// Number of buffered samples available for reading.
    pub fn samples_avail(&self) -> (r: usize)
        ensures
            r == self@.avail,
    {
        self.avail
    }

    /// Installs a conversion factor directly.  Refused if the factor is
    /// below `MIN_FACTOR`, which would mean a clock/sample ratio above
    /// `MAX_RATIO` and a loss of whole-clock precision in fixed-point time.
    pub fn set_factor(&mut self, factor: u64) -> (r: Result<(), BlipError>)
        requires
            old(self).wf(),
        ensures
            final(self).wf(),
            factor >= MIN_FACTOR ==> r == Ok::<(), BlipError>(()) && final(self)@ == (BlipView {
                factor,
                ..old(self)@
            }),
            factor < MIN_FACTOR ==> r == Err::<(), BlipError>(BlipError::RateOutOfRange)
                && final(self)@ == old(self)@,
    {
        if factor < MIN_FACTOR {
            Err(BlipError::RateOutOfRange)
        } else {
            self.factor = factor;
            Ok(())
        }
    }

    /// Adds a positive or negative delta into the buffer at the specified
    /// clock time, spread over a 16-slot window by the band-limited step
    /// table, with linear interpolation between adjacent phases.  The
    /// caller must respect `clocks_needed`: the window may not run past
    /// the end of the buffer.
    pub fn add_delta(&mut self, time: u32, delta: i32)
        requires
            old(self).wf(),
            old(self)@.avail + spec_pos(old(self)@.factor, old(self)@.offset, time as int) + 2
                * HALF_WIDTH <= old(self)@.samples.len(),
        ensures
            final(self).wf(),
            final(self)@.factor == old(self)@.factor,
            final(self)@.offset == old(self)@.offset,
            final(self)@.integrator == old(self)@.integrator,
            final(self)@.avail == old(self)@.avail,
            final(self)@.samples == spec_add_delta_samples(
                old(self)@.samples,
                old(self)@.avail as int,
                old(self)@.factor,
                old(self)@.offset,
                time as int,
                delta,
            ),
    {
        proof {
            axiom_spec_len(&self.samples);
            lemma_mul_upper_bound(time as int, u32::MAX as int, self@.factor as int, u64::MAX as int);
        }
        let fixed: u128 = ((time as u128) * (self.factor as u128) + (self.offset as u128)) / (
        PRE_UNIT as u128);
        proof {
            lemma_mod_bound((fixed / 0x8000) as int, PHASE_COUNT as int);
            lemma_mod_bound(fixed as int, DELTA_UNIT as int);
        }
        let pos: usize = (fixed / (FRAC_UNIT as u128)) as usize;
        let out_index: usize = self.avail + pos;
        let phase: usize = ((fixed / 0x8000) % (PHASE_COUNT as u128)) as usize;
        let interp: i32 = (fixed % (DELTA_UNIT as u128)) as i32;
        let delta2: i32 = shift_down_15(delta.wrapping_mul(interp));
        let delta1: i32 = delta.wrapping_sub(delta2);
        proof {
            lemma_wsub_is_crop(delta, delta2);
        }
        let ghost orig = self.samples@;
        let ghost goal = spec_add_delta_samples(
            orig,
            self@.avail as int,
            self@.factor,
            self@.offset,
            time as int,
            delta,
        );
        let ghost oi = out_index as int;
        let ghost ph = phase as int;
        let mut k: usize = 0;
        while k < 8
            invariant
                k <= 8,
                phase < 32,
                orig.len() <= usize::MAX,
                out_index + 16 <= orig.len(),
                oi == out_index as int,
                ph == phase as int,
                self@.samples.len() == orig.len(),
                self@.factor == old(self)@.factor,
                self@.offset == old(self)@.offset,
                self@.integrator == old(self)@.integrator,
                self@.avail == old(self)@.avail,
                goal.len() == orig.len(),
                forall|j: int|
                    oi <= j < oi + k ==> self@.samples[j] == i32_specs::signed_crop(
                        orig[j] + step_coeff(ph, j - oi) * (delta1 as int) + step_coeff2(
                            ph,
                            j - oi,
                        ) * (delta2 as int),
                    ),
                forall|j: int|
                    0 <= j < orig.len() && !(oi <= j < oi + k) ==> self@.samples[j] == orig[j],
            decreases 8 - k,
        {
            let c1 = bl_entry(phase, k);
            let c2 = bl_entry(phase + 1, k);
            let p1: i32 = (c1 as i32).wrapping_mul(delta1);
            let p2: i32 = (c2 as i32).wrapping_mul(delta2);
            let term: i32 = p1.wrapping_add(p2);
            let idx = out_index + k;
            let v: i32 = self.samples[idx];
            let w: i32 = v.wrapping_add(term);
            proof {
                lemma_wadd_is_crop(p1, p2);
                lemma_wadd_is_crop(v, term);
                lemma_crop_absorb(v as int, p1 as int + p2 as int);
                lemma_crop_absorb(v as int + p2 as int, (c1 as int) * (delta1 as int));
                lemma_crop_absorb(
                    v as int + (c1 as int) * (delta1 as int),
                    (c2 as int) * (delta2 as int),
                );
            }
            self.samples[idx] = w;
            k += 1;
        }
        let mut k: usize = 0;
        while k < 8
            invariant
                k <= 8,
                phase < 32,
                orig.len() <= usize::MAX,
                out_index + 16 <= orig.len(),
                oi == out_index as int,
                ph == phase as int,
                self@.samples.len() == orig.len(),
                self@.factor == old(self)@.factor,
                self@.offset == old(self)@.offset,
                self@.integrator == old(self)@.integrator,
                self@.avail == old(self)@.avail,
                goal.len() == orig.len(),
                forall|j: int|
                    oi <= j < oi + 8 + k ==> self@.samples[j] == i32_specs::signed_crop(
                        orig[j] + step_coeff(ph, j - oi) * (delta1 as int) + step_coeff2(
                            ph,
                            j - oi,
                        ) * (delta2 as int),
                    ),
                forall|j: int|
                    0 <= j < orig.len() && !(oi <= j < oi + 8 + k) ==> self@.samples[j] == orig[j],
            decreases 8 - k,
        {
            let c1 = bl_entry(32 - phase, 7 - k);
            let c2 = bl_entry(31 - phase, 7 - k);
            let p1: i32 = (c1 as i32).wrapping_mul(delta1);
            let p2: i32 = (c2 as i32).wrapping_mul(delta2);
            let term: i32 = p1.wrapping_add(p2);
            let idx = out_index + 8 + k;
            let v: i32 = self.samples[idx];
            let w: i32 = v.wrapping_add(term);
            proof {
                lemma_wadd_is_crop(p1, p2);
                lemma_wadd_is_crop(v, term);
                lemma_crop_absorb(v as int, p1 as int + p2 as int);
                lemma_crop_absorb(v as int + p2 as int, (c1 as int) * (delta1 as int));
                lemma_crop_absorb(
                    v as int + (c1 as int) * (delta1 as int),
                    (c2 as int) * (delta2 as int),
                );
                assert(step_coeff(ph, 8 + k) == bl(32 - ph, 7 - k));
                assert(step_coeff2(ph, 8 + k) == bl(31 - ph, 7 - k));
            }
            self.samples[idx] = w;
            k += 1;
        }
        proof {
            assert(self@.samples =~= goal);
        }
    }

    /// Same as `add_delta`, but uses faster, lower-quality synthesis: the
    /// interpolated delta lands on just two adjacent slots in the middle
    /// of the window, with no band-limiting shape.
    pub fn add_delta_fast(&mut self, time: u32, delta: i16)
        requires
            old(self).wf(),
            old(self)@.avail + spec_pos(old(self)@.factor, old(self)@.offset, time as int) + 2
                * HALF_WIDTH <= old(self)@.samples.len(),
        ensures
            final(self).wf(),
            final(self)@.factor == old(self)@.factor,
            final(self)@.offset == old(self)@.offset,
            final(self)@.integrator == old(self)@.integrator,
            final(self)@.avail == old(self)@.avail,
            final(self)@.samples == spec_add_delta_fast_samples(
                old(self)@.samples,
                old(self)@.avail as int,
                old(self)@.factor,
                old(self)@.offset,
                time as int,
                delta,
            ),
    {
        proof {
            axiom_spec_len(&self.samples);
            lemma_mul_upper_bound(time as int, u32::MAX as int, self@.factor as int, u64::MAX as int);
        }
        let fixed: u128 = ((time as u128) * (self.factor as u128) + (self.offset as u128)) / (
        PRE_UNIT as u128);
        proof {
            lemma_mod_bound((fixed / 0x20) as int, DELTA_UNIT as int);
        }
        let pos: usize = (fixed / (FRAC_UNIT as u128)) as usize;
        let out_index: usize = self.avail + pos;
        let interp: i32 = ((fixed / 0x20) % (DELTA_UNIT as u128)) as i32;
        let d: i32 = delta as i32;
        proof {
            assert(-0x4000_0000 <= d * interp < 0x4000_0000) by (nonlinear_arith)
                requires
                    -0x8000 <= d < 0x8000,
                    0 <= interp < 0x8000,
            ;
            assert(-0x4000_0000 <= d * DELTA_UNIT - d * interp <= 0x4000_0000) by (nonlinear_arith)
                requires
                    -0x8000 <= d < 0x8000,
                    0 <= interp < 0x8000,
            ;
        }
        let d2: i32 = d * interp;
        let dm: i32 = d * DELTA_UNIT - d2;
        let v7: i32 = self.samples[out_index + 7];
        let w7: i32 = v7.wrapping_add(dm);
        self.samples[out_index + 7] = w7;
        let v8: i32 = self.samples[out_index + 8];
        let w8: i32 = v8.wrapping_add(d2);
        self.samples[out_index + 8] = w8;
        proof {
            lemma_wadd_is_crop(v7, dm);
            lemma_wadd_is_crop(v8, d2);
            assert(self@.samples =~= spec_add_delta_fast_samples(
                old(self)@.samples,
                old(self)@.avail as int,
                old(self)@.factor,
                old(self)@.offset,
                time as int,
                delta,
            ));
        }
    }

    /// Length of time frame, in clocks, needed to make `sample_count`
    /// additional samples available.  Returns 0 when the fraction already
    /// carried covers them.  The caller must leave room: `sample_count`
    /// more samples may not exceed the capacity, and the clock count must
    /// fit its 32-bit result.
    pub fn clocks_needed(&self, sample_count: u32) -> (r: u32)
        requires
            self.wf(),
            self@.avail + sample_count <= self.spec_capacity(),
            spec_clocks_needed(self@.factor, self@.offset, sample_count as int) <= u32::MAX,
        ensures
            r == spec_clocks_needed(self@.factor, self@.offset, sample_count as int),
    {
        proof {
            lemma_mul_upper_bound(
                sample_count as int,
                u32::MAX as int,
                TIME_UNIT as int,
                TIME_UNIT as int,
            );
        }
        let needed: u128 = (sample_count as u128) * (TIME_UNIT as u128);
        if needed < self.offset as u128 {
            return 0;
        }
        let clocks: u128 = (needed - self.offset as u128 + self.factor as u128 - 1)
            / (self.factor as u128);
        clocks as u32
    }

    /// Makes the input clocks before `clock_duration` available for
    /// reading as output samples and begins a new time frame there,
    /// carrying the fractional sample position forward.  The caller must
    /// not complete more samples than the capacity has room for.
    pub fn end_frame(&mut self, clock_duration: u32)
        requires
            old(self).wf(),
            old(self)@.avail + spec_frame_samples(
                old(self)@.factor,
                old(self)@.offset,
                clock_duration as int,
            ) <= old(self).spec_capacity(),
        ensures
            final(self).wf(),
            final(self)@.avail == old(self)@.avail + spec_frame_samples(
                old(self)@.factor,
                old(self)@.offset,
                clock_duration as int,
            ),
            final(self)@.offset == spec_frame_remainder(
                old(self)@.factor,
                old(self)@.offset,
                clock_duration as int,
            ),
            final(self)@.factor == old(self)@.factor,
            final(self)@.integrator == old(self)@.integrator,
            final(self)@.samples == old(self)@.samples,
    {
        proof {
            lemma_mul_upper_bound(
                clock_duration as int,
                u32::MAX as int,
                old(self)@.factor as int,
                u64::MAX as int,
            );
            lemma_mod_bound(
                spec_frame_time(old(self)@.factor, old(self)@.offset, clock_duration as int),
                TIME_UNIT as int,
            );
        }
        proof {
            axiom_spec_len(&self.samples);
        }
        let off: u128 = (clock_duration as u128) * (self.factor as u128) + (self.offset as u128);
        let completed: u128 = off / (TIME_UNIT as u128);
        self.avail = self.avail + completed as usize;
        self.offset = (off % (TIME_UNIT as u128)) as u64;
    }

    /// Drops `count` consumed samples from the front of the buffer: the
    /// pending remainder and the guard region shift down, and the slots
    /// behind them are cleared for the next frame.
    fn remove_samples(&mut self, count: usize)
        requires
            old(self).wf(),
            count <= old(self)@.avail,
        ensures
            final(self).wf(),
            final(self)@.factor == old(self)@.factor,
            final(self)@.offset == old(self)@.offset,
            final(self)@.integrator == old(self)@.integrator,
            final(self)@.avail == old(self)@.avail - count,
            final(self)@.samples == removed(
                old(self)@.samples,
                old(self)@.avail as int,
                count as int,
            ),
    {
        proof {
            axiom_spec_len(&self.samples);
        }
        let remain: usize = self.avail + BUF_EXTRA - count;
        self.avail = self.avail - count;
        let len: usize = self.samples.len();
        let mut i: usize = 0;
        while i < len
            invariant
                i <= len,
                count <= old(self)@.avail,
                remain == old(self)@.avail + BUF_EXTRA - count,
                remain <= len,
                remain + count <= len,
                len <= usize::MAX,
                self@.samples.len() == len,
                len == old(self)@.samples.len(),
                self@.factor == old(self)@.factor,
                self@.offset == old(self)@.offset,
                self@.integrator == old(self)@.integrator,
                self@.avail == old(self)@.avail - count,
                forall|j: int|
                    0 <= j < i && j < remain ==> self@.samples[j] == old(self)@.samples[j + count],
                forall|j: int| remain <= j < i ==> self@.samples[j] == 0,
                forall|j: int| i <= j < len ==> self@.samples[j] == old(self)@.samples[j],
            decreases len - i,
        {
            if i < remain {
                let v: i32 = self.samples[i + count];
                self.samples[i] = v;
            } else {
                self.samples[i] = 0;
            }
            i += 1;
        }
        proof {
            assert(self@.samples =~= removed(
                old(self)@.samples,
                old(self)@.avail as int,
                count as int,
            ));
        }
    }

    /// Reads and removes at most `buf.len()` samples (half that many if
    /// `stereo`) and writes them to `buf`.  If `stereo` is true, writes
    /// output to every other element of `buf`, allowing easy interleaving
    /// of two buffers into a stereo sample stream.  Outputs 16-bit signed
    /// samples.  Returns the number of samples actually read.
    pub fn read_samples(&mut self, buf: &mut Vec<i16>, stereo: bool) -> (count: usize)
        requires
            old(self).wf(),
        ensures
            final(self).wf(),
            count == spec_read_count(old(buf).len() as int, stereo, old(self)@.avail as int),
            final(buf).len() == old(buf).len(),
            forall|j: int|
                0 <= j < count ==> final(buf)@[j * spec_step(stereo)] == sample_at(
                    old(self)@.integrator,
                    old(self)@.samples,
                    j,
                ),
            forall|j: int|
                spec_step(stereo) * count <= j < old(buf).len() ==> final(buf)@[j] == old(
                    buf,
                )@[j],
            stereo ==> forall|j: int|
                0 <= j < old(buf).len() && j % 2 == 1 ==> final(buf)@[j] == old(buf)@[j],
            final(self)@.factor == old(self)@.factor,
            final(self)@.offset == old(self)@.offset,
            final(self)@.avail == old(self)@.avail - count,
            count == 0 ==> final(self)@ == old(self)@,
            count > 0 ==> final(self)@.integrator == integrator_after(
                old(self)@.integrator,
                old(self)@.samples,
                count as int,
            ),
            count > 0 ==> final(self)@.samples == removed(
                old(self)@.samples,
                old(self)@.avail as int,
                count as int,
            ),
    {
        proof {
            axiom_spec_len(&self.samples);
            axiom_spec_len(buf);
        }
        let buf_len: usize = buf.len();
        let mut count: usize = if stereo {
            buf_len / 2 + buf_len % 2
        } else {
            buf_len
        };
        if count > self.avail {
            count = self.avail;
        }
        if count != 0 {
            let step: usize = if stereo {
                2
            } else {
                1
            };
            let mut sum: i32 = self.integrator;
            let mut i: usize = 0;
            while i < count
                invariant
                    i <= count,
                    step == spec_step(stereo),
                    count <= self@.avail,
                    self@.avail + BUF_EXTRA <= self@.samples.len(),
                    self@.samples.len() <= usize::MAX,
                    buf.len() == old(buf).len(),
                    buf.len() <= usize::MAX,
                    stereo ==> count <= (old(buf).len() + 1) / 2,
                    !stereo ==> count <= old(buf).len(),
                    sum == integrator_after(self@.integrator, self@.samples, i as int),
                    forall|j: int|
                        0 <= j < i ==> buf@[j * spec_step(stereo)] == sample_at(
                            self@.integrator,
                            self@.samples,
                            j,
                        ),
                    forall|j: int|
                        spec_step(stereo) * i <= j < buf.len() ==> buf@[j] == old(buf)@[j],
                    stereo ==> forall|j: int|
                        0 <= j < buf.len() && j % 2 == 1 ==> buf@[j] == old(buf)@[j],
                decreases count - i,
            {
                let s_raw: i32 = shift_down_15(sum);
                let sc: i32 = clamp(s_raw);
                let x: i32 = self.samples[i];
                let t1: i32 = sum.wrapping_add(x);
                let ghost sum_before = sum;
                sum = t1.wrapping_sub(sc * BASS_UNIT);
                proof {
                    lemma_wadd_is_crop(sum_before, x);
                    lemma_wsub_is_crop(t1, (sc * BASS_UNIT) as i32);
                    lemma_crop_absorb(
                        -(BASS_UNIT as int) * (sc as int),
                        sum_before as int + x as int,
                    );
                    assert(sum == next_sum(sum_before, x));
                }
                buf[i * step] = sc as i16;
                i += 1;
            }
            self.integrator = sum;
            self.remove_samples(count);
        }
        count
    }

    /// Sets the input clock rate and output sample rate: for every
    /// `clock_rate` input clocks, approximately `sample_rate` samples are
    /// generated.  The stored factor is the scaled ratio rounded up, so
    /// the true ratio is never underestimated.  Fails with
    /// `RateOutOfRange`, leaving the configuration unchanged, when the
    /// ratio exceeds `MAX_RATIO` or the factor cannot be represented.
    pub fn set_rates(&mut self, clock_rate: u64, sample_rate: u64) -> (r: Result<(), BlipError>)
        requires
            old(self).wf(),
        ensures
            final(self).wf(),
            rates_ok(clock_rate, sample_rate) ==> {
                &&& r == Ok::<(), BlipError>(())
                &&& final(self)@ == (BlipView {
                    factor: spec_factor(clock_rate, sample_rate) as u64,
                    ..old(self)@
                })
                &&& spec_factor(clock_rate, sample_rate) * clock_rate >= TIME_UNIT * sample_rate
                &&& sample_rate <= clock_rate ==> spec_factor(clock_rate, sample_rate)
                    <= TIME_UNIT
            },
            !rates_ok(clock_rate, sample_rate) ==> r == Err::<(), BlipError>(
                BlipError::RateOutOfRange,
            ) && final(self)@ == old(self)@,
    {
        if clock_rate == 0 {
            return Err(BlipError::RateOutOfRange);
        }
        proof {
            lemma_mul_upper_bound(MAX_RATIO as int, MAX_RATIO as int, sample_rate as int, u64::MAX as int);
            lemma_mul_upper_bound(TIME_UNIT as int, TIME_UNIT as int, sample_rate as int, u64::MAX as int);
        }
        let ratio_bound: u128 = (MAX_RATIO as u128) * (sample_rate as u128);
        if (clock_rate as u128) > ratio_bound {
            return Err(BlipError::RateOutOfRange);
        }
        let num: u128 = (TIME_UNIT as u128) * (sample_rate as u128);
        let den: u128 = clock_rate as u128;
        let factor: u128 = (num + den - 1) / den;
        if factor > u64::MAX as u128 {
            return Err(BlipError::RateOutOfRange);
        }
        proof {
            lemma_fundamental_div_mod(num + den - 1, den as int);
            lemma_mod_bound(num + den - 1, den as int);
            assert(factor * den >= num);
            assert(TIME_UNIT * sample_rate >= MIN_FACTOR * clock_rate) by {
                lemma_mul_inequality(clock_rate as int, MAX_RATIO * sample_rate, MIN_FACTOR as int);
                assert(MIN_FACTOR * (MAX_RATIO * sample_rate) == TIME_UNIT * sample_rate)
                    by (nonlinear_arith);
            };
            assert(factor >= MIN_FACTOR) by (nonlinear_arith)
                requires
                    factor * den >= MIN_FACTOR as int * den,
                    den >= 1,
            ;
            if sample_rate <= clock_rate {
                assert(TIME_UNIT * sample_rate <= TIME_UNIT * clock_rate) by (nonlinear_arith)
                    requires
                        sample_rate <= clock_rate,
                ;
                lemma_div_is_ordered(
                    TIME_UNIT * sample_rate + clock_rate - 1,
                    TIME_UNIT * clock_rate + clock_rate - 1,
                    clock_rate as int,
                );
                lemma_fundamental_div_mod_converse(
                    TIME_UNIT * clock_rate + clock_rate - 1,
                    clock_rate as int,
                    TIME_UNIT as int,
                    clock_rate - 1,
                );
            }
        }
        self.factor = factor as u64;
        Ok(())
    }
}

} // verus!
