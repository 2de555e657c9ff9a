//! Post-mix tape coloration: drive-normalized saturation, a one-pole
//! high-frequency rolloff, decorrelated hiss, and a wow/flutter pitch-offset
//! primitive for variable-speed playback, plus the cubic-interpolating
//! speed control it would feed.

use vstd::prelude::*;

use crate::constants::{FX_ONE, SAMPLE_RATE_SAMPLES, TRACK_SAMPLES};
use crate::fx::{
    clamp_i64, clamp_spec, div_pos, div_trunc, fx_mul, fx_mul_spec, lcg_next, lcg_next_spec,
    lemma_fx_mul_contract, noise_of, noise_sample, osc_wave, osc_wave_spec, soft_sat,
    soft_sat_spec, tdiv,
};

verus! {

/// Fine LFO phase scale: 1024 sub-units per fixed-point phase unit.
pub const TAPE_LFO_ONE: i64 = 67_108_864;

/// `2 * pi` in fixed-point units.
pub const TWO_PI_FX: i64 = 411_775;

/// Largest sample magnitude the tape stage accepts.
pub const TAPE_IN_MAX: i64 = 0x10_0000_0000;

pub struct TapeSimulation {
    pub enabled: bool,
    pub wow_phase: i64,
    /// Wow depth as a fraction of a sample period.
    pub wow_depth: i64,
    /// Wow rate, fixed-point Hz.
    pub wow_rate: i64,
    pub flutter_phase: i64,
    pub flutter_depth: i64,
    pub flutter_rate: i64,
    /// Saturation drive, at least 1.
    pub drive: i64,
    pub noise_state: u32,
    pub hiss_level: i64,
    /// Rolloff cutoff, plain Hz.
    pub rolloff_freq: i64,
    pub lp_l: i64,
    pub lp_r: i64,
}

/// The drive-normalized saturation curve.
pub open spec fn tape_sat_spec(x: int, drive: int) -> int {
    tdiv(soft_sat_spec(fx_mul_spec(x, drive)) * (FX_ONE as int), soft_sat_spec(drive))
}

/// The one-pole rolloff coefficient for a cutoff frequency in Hz.
pub open spec fn rolloff_alpha_spec(freq: int) -> int {
    let tp = TWO_PI_FX * freq / (FX_ONE as int);
    tp * (FX_ONE as int) / ((SAMPLE_RATE_SAMPLES as int) + tp)
}

/// A lowpass state after absorbing one sample.
pub open spec fn lp_step_spec(state: int, x: int, alpha: int) -> int {
    clamp_spec(state + fx_mul_spec(alpha, x - state), -4 * FX_ONE as int, 4 * FX_ONE as int)
}

/// The colored left sample the tape emits for a pre-clip input: saturation,
/// rolloff, then hiss; the input passes through untouched when disabled.
pub open spec fn tape_out_l_spec(t: TapeSimulation, x: int) -> int {
    if !t.enabled {
        x
    } else {
        lp_step_spec(
            t.lp_l as int,
            tape_sat_spec(x, t.drive as int),
            rolloff_alpha_spec(t.rolloff_freq as int),
        ) + fx_mul_spec(noise_of(lcg_next_spec(t.noise_state)), t.hiss_level as int)
    }
}

/// The colored right sample: as the left, with the hiss scaled down to
/// decorrelate the channels.
pub open spec fn tape_out_r_spec(t: TapeSimulation, x: int) -> int {
    if !t.enabled {
        x
    } else {
        lp_step_spec(
            t.lp_r as int,
            tape_sat_spec(x, t.drive as int),
            rolloff_alpha_spec(t.rolloff_freq as int),
        ) + fx_mul_spec(
            fx_mul_spec(noise_of(lcg_next_spec(t.noise_state)), t.hiss_level as int),
            52429,
        )
    }
}

/// How the tape state advances over one stereo pair.
pub open spec fn tape_stepped(a: TapeSimulation, b: TapeSimulation, l: int, r: int) -> bool {
    if !a.enabled {
        b == a
    } else {
        let alpha = rolloff_alpha_spec(a.rolloff_freq as int);
        b == TapeSimulation {
            lp_l: lp_step_spec(a.lp_l as int, tape_sat_spec(l, a.drive as int), alpha) as i64,
            lp_r: lp_step_spec(a.lp_r as int, tape_sat_spec(r, a.drive as int), alpha) as i64,
            noise_state: lcg_next_spec(a.noise_state),
            ..a
        }
    }
}

/// A fine LFO phase one sample later.
pub open spec fn lfo_step_spec(phase: int, rate: int) -> int {
    let inc = rate * 1024 / (SAMPLE_RATE_SAMPLES as int);
    if phase + inc >= TAPE_LFO_ONE {
        phase + inc - TAPE_LFO_ONE
    } else {
        phase + inc
    }
}

impl TapeSimulation {
    pub open spec fn inv(self) -> bool {
        &&& 0 <= self.wow_phase < TAPE_LFO_ONE
        &&& 0 <= self.flutter_phase < TAPE_LFO_ONE
        &&& 0 <= self.wow_depth <= FX_ONE
        &&& 0 <= self.flutter_depth <= FX_ONE
        &&& 0 <= self.wow_rate <= 655_360
        &&& 0 <= self.flutter_rate <= 655_360
        &&& FX_ONE <= self.drive <= 10 * FX_ONE
        &&& 0 <= self.hiss_level <= FX_ONE
        &&& 20 <= self.rolloff_freq <= 20_000
        &&& -4 * FX_ONE <= self.lp_l <= 4 * FX_ONE
        &&& -4 * FX_ONE <= self.lp_r <= 4 * FX_ONE
    }

    /// Defaults: disabled, gentle wow, faint flutter, light drive and hiss,
    /// rolloff near the top of the audible band.
    pub fn new() -> (t: TapeSimulation)
        ensures
            t.inv(),
            !t.enabled,
    {
        TapeSimulation {
            enabled: false,
            wow_phase: 0,
            wow_depth: 131,
            wow_rate: 65_536,
            flutter_phase: 0,
            flutter_depth: 20,
            flutter_rate: 524_288,
            drive: 131_072,
            noise_state: 42,
            hiss_level: 328,
            rolloff_freq: 14_000,
            lp_l: 0,
            lp_r: 0,
        }
    }

    /// Colors one stereo pair when enabled: saturation, rolloff, then hiss
    /// with the right channel's hiss scaled down to decorrelate. When
    /// disabled the pair passes through untouched.
    pub fn process_stereo(&mut self, left: i64, right: i64) -> (out: (i64, i64))
        requires
            old(self).inv(),
            -TAPE_IN_MAX <= left <= TAPE_IN_MAX,
            -TAPE_IN_MAX <= right <= TAPE_IN_MAX,
        ensures
            final(self).inv(),
            out.0 == tape_out_l_spec(*old(self), left as int),
            out.1 == tape_out_r_spec(*old(self), right as int),
            tape_stepped(*old(self), *final(self), left as int, right as int),
            -5 * FX_ONE <= out.0 <= 5 * FX_ONE || !old(self).enabled,
            -5 * FX_ONE <= out.1 <= 5 * FX_ONE || !old(self).enabled,
    {
        if !self.enabled {
            return (left, right);
        }
        let sl = self.saturate(left);
        let sr = self.saturate(right);
        proof {
            vstd::arithmetic::div_mod::lemma_div_pos_is_pos(
                TWO_PI_FX as int * self.rolloff_freq as int,
                FX_ONE as int,
            );
            vstd::arithmetic::div_mod::lemma_div_is_ordered(
                TWO_PI_FX as int * self.rolloff_freq as int,
                TWO_PI_FX as int * 20_000,
                FX_ONE as int,
            );
            assert(TWO_PI_FX as int * self.rolloff_freq as int <= TWO_PI_FX as int * 20_000)
                by (nonlinear_arith)
                requires
                    20 <= self.rolloff_freq <= 20_000,
            ;
            assert(TWO_PI_FX as int * 20_000 / (FX_ONE as int) == 125_663);
        }
        let tp = div_pos(TWO_PI_FX * self.rolloff_freq, FX_ONE);
        proof {
            vstd::arithmetic::div_mod::lemma_div_pos_is_pos(
                tp as int * (FX_ONE as int),
                (SAMPLE_RATE_SAMPLES as int) + tp as int,
            );
            assert(tp as int * (FX_ONE as int) <= ((SAMPLE_RATE_SAMPLES as int) + tp as int) * (
            FX_ONE as int)) by (nonlinear_arith)
                requires
                    0 <= tp,
            ;
            vstd::arithmetic::div_mod::lemma_multiply_divide_lt(
                tp as int * (FX_ONE as int),
                (SAMPLE_RATE_SAMPLES as int) + tp as int,
                FX_ONE as int + 1,
            );
            assert(tp as int * (FX_ONE as int) < ((SAMPLE_RATE_SAMPLES as int) + tp as int) * (
            FX_ONE as int + 1)) by (nonlinear_arith)
                requires
                    0 <= tp,
            ;
        }
        let alpha = div_pos(tp * FX_ONE, (SAMPLE_RATE_SAMPLES as i64) + tp);
        proof {
            lemma_fx_mul_contract(sl as int - self.lp_l as int, alpha as int);
            lemma_fx_mul_contract(sr as int - self.lp_r as int, alpha as int);
            crate::fx::lemma_mul_fits(
                alpha as int,
                sl as int - self.lp_l as int,
                FX_ONE as int,
                6 * FX_ONE as int,
            );
            crate::fx::lemma_mul_fits(
                alpha as int,
                sr as int - self.lp_r as int,
                FX_ONE as int,
                6 * FX_ONE as int,
            );
        }
        let ll = clamp_i64(self.lp_l + fx_mul(alpha, sl - self.lp_l), -4 * FX_ONE, 4 * FX_ONE);
        let lr = clamp_i64(self.lp_r + fx_mul(alpha, sr - self.lp_r), -4 * FX_ONE, 4 * FX_ONE);
        let ns = lcg_next(self.noise_state);
        let noise = noise_sample(ns);
        proof {
            lemma_fx_mul_contract(noise as int, self.hiss_level as int);
        }
        let hiss = fx_mul(noise, self.hiss_level);
        proof {
            lemma_fx_mul_contract(hiss as int, 52429);
        }
        let hiss_r = fx_mul(hiss, 52429);
        self.lp_l = ll;
        self.lp_r = lr;
        self.noise_state = ns;
        (ll + hiss, lr + hiss_r)
    }

    /// Drive-normalized saturation of one sample.
    fn saturate(&self, x: i64) -> (r: i64)
        requires
            self.inv(),
            -TAPE_IN_MAX <= x <= TAPE_IN_MAX,
        ensures
            r == tape_sat_spec(x as int, self.drive as int),
            -2 * FX_ONE <= r <= 2 * FX_ONE,
    {
        proof {
            crate::fx::lemma_mul_fits(
                x as int,
                self.drive as int,
                TAPE_IN_MAX as int,
                10 * FX_ONE as int,
            );
        }
        let xd = fx_mul(x, self.drive);
        proof {
            assert(crate::fx::abs_spec(xd as int) * (FX_ONE as int) <= crate::fx::abs_spec(
                (x as int) * (self.drive as int),
            ));
            assert(crate::fx::abs_spec((x as int) * (self.drive as int)) <= (TAPE_IN_MAX as int)
                * 10 * (FX_ONE as int)) by (nonlinear_arith)
                requires
                    -TAPE_IN_MAX <= x <= TAPE_IN_MAX,
                    0 <= self.drive <= 10 * FX_ONE,
            ;
            assert(crate::fx::abs_spec(xd as int) <= 10 * (TAPE_IN_MAX as int))
                by (nonlinear_arith)
                requires
                    crate::fx::abs_spec(xd as int) * (FX_ONE as int) <= (TAPE_IN_MAX as int) * 10
                        * (FX_ONE as int),
            ;
        }
        let shaped = soft_sat(xd);
        let norm = soft_sat(self.drive);
        proof {
            lemma_sat_of_drive_at_least_half(self.drive as int);
        }
        let r = div_trunc(shaped * FX_ONE, norm);
        proof {
            if shaped * FX_ONE >= 0 {
                vstd::arithmetic::div_mod::lemma_div_is_ordered(
                    (shaped as int) * (FX_ONE as int),
                    2 * (FX_ONE as int) * (norm as int),
                    norm as int,
                );
                vstd::arithmetic::div_mod::lemma_div_multiples_vanish(
                    2 * FX_ONE as int,
                    norm as int,
                );
                assert((shaped as int) * (FX_ONE as int) <= 2 * (FX_ONE as int) * (norm as int))
                    by (nonlinear_arith)
                    requires
                        0 <= shaped <= FX_ONE,
                        norm >= 32768,
                ;
            } else {
                vstd::arithmetic::div_mod::lemma_div_is_ordered(
                    -((shaped as int) * (FX_ONE as int)),
                    2 * (FX_ONE as int) * (norm as int),
                    norm as int,
                );
                vstd::arithmetic::div_mod::lemma_div_multiples_vanish(
                    2 * FX_ONE as int,
                    norm as int,
                );
                assert(-((shaped as int) * (FX_ONE as int)) <= 2 * (FX_ONE as int) * (norm as int))
                    by (nonlinear_arith)
                    requires
                        -FX_ONE <= shaped <= 0,
                        norm >= 32768,
                ;
            }
        }
        r
    }

    /// The wow and flutter pitch offset for this sample, in fixed-point
    /// samples; both low-frequency oscillators advance.
    pub fn get_pitch_offset(&mut self) -> (off: i64)
        requires
            old(self).inv(),
        ensures
            final(self).inv(),
            off == fx_mul_spec(
                osc_wave_spec(old(self).wow_phase as int / 1024),
                old(self).wow_depth as int * (SAMPLE_RATE_SAMPLES as int),
            ) + fx_mul_spec(
                osc_wave_spec(old(self).flutter_phase as int / 1024),
                old(self).flutter_depth as int * (SAMPLE_RATE_SAMPLES as int),
            ),
            final(self).wow_phase == lfo_step_spec(
                old(self).wow_phase as int,
                old(self).wow_rate as int,
            ),
            final(self).flutter_phase == lfo_step_spec(
                old(self).flutter_phase as int,
                old(self).flutter_rate as int,
            ),
            final(self).lp_l == old(self).lp_l,
            final(self).lp_r == old(self).lp_r,
            final(self).noise_state == old(self).noise_state,
            final(self).enabled == old(self).enabled,
    {
        let wow = self.lfo_sample(self.wow_phase, self.wow_depth);
        let flutter = self.lfo_sample(self.flutter_phase, self.flutter_depth);
        self.wow_phase = lfo_advance(self.wow_phase, self.wow_rate);
        self.flutter_phase = lfo_advance(self.flutter_phase, self.flutter_rate);
        wow + flutter
    }

    fn lfo_sample(&self, phase: i64, depth: i64) -> (r: i64)
        requires
            0 <= phase < TAPE_LFO_ONE,
            0 <= depth <= FX_ONE,
        ensures
            r == fx_mul_spec(
                osc_wave_spec(phase as int / 1024),
                depth as int * (SAMPLE_RATE_SAMPLES as int),
            ),
            -FX_ONE * (SAMPLE_RATE_SAMPLES as int) <= r <= FX_ONE * (SAMPLE_RATE_SAMPLES as int),
    {
        proof {
            vstd::arithmetic::div_mod::lemma_div_pos_is_pos(phase as int, 1024);
            vstd::arithmetic::div_mod::lemma_div_is_ordered(
                phase as int,
                TAPE_LFO_ONE as int - 1,
                1024,
            );
            assert((TAPE_LFO_ONE as int - 1) / 1024 < FX_ONE);
        }
        let wave = osc_wave(div_pos(phase, 1024));
        proof {
            assert(0 <= (depth as int) * (SAMPLE_RATE_SAMPLES as int) <= (FX_ONE as int) * (
            SAMPLE_RATE_SAMPLES as int)) by (nonlinear_arith)
                requires
                    0 <= depth <= FX_ONE,
            ;
        }
        let span = depth * (SAMPLE_RATE_SAMPLES as i64);
        proof {
            crate::fx::lemma_fx_mul_by_unit(wave as int, span as int);
            crate::fx::lemma_mul_fits(
                wave as int,
                span as int,
                FX_ONE as int,
                FX_ONE as int * (SAMPLE_RATE_SAMPLES as int),
            );
        }
        fx_mul(wave, span)
    }
}

/// The saturator maps any drive of at least 1 to at least one half.
proof fn lemma_sat_of_drive_at_least_half(drive: int)
    requires
        FX_ONE <= drive <= 10 * FX_ONE,
    ensures
        soft_sat_spec(drive) >= 32768,
{
    let f = FX_ONE as int;
    let c = clamp_spec(drive, -3 * f, 3 * f);
    assert(f <= c <= 3 * f);
    let num = c * (27 * f * f + c * c);
    let den = 27 * f * f + 9 * c * c;
    assert(num >= 32768 * den + 0) by (nonlinear_arith)
        requires
            f == 65536,
            f <= c <= 3 * f,
            num == c * (27 * f * f + c * c),
            den == 27 * f * f + 9 * c * c,
    ;
    assert(num / den >= (32768 * den) / den) by {
        vstd::arithmetic::div_mod::lemma_div_is_ordered(32768 * den, num, den);
    }
    assert((32768 * den) / den == 32768) by {
        vstd::arithmetic::div_mod::lemma_div_multiples_vanish(32768, den);
        assert(32768 * den == den * 32768) by (nonlinear_arith);
    }
}

fn lfo_advance(phase: i64, rate: i64) -> (r: i64)
    requires
        0 <= phase < TAPE_LFO_ONE,
        0 <= rate <= 655_360,
    ensures
        r == lfo_step_spec(phase as int, rate as int),
        0 <= r < TAPE_LFO_ONE,
{
    proof {
        vstd::arithmetic::div_mod::lemma_div_pos_is_pos(
            rate as int * 1024,
            SAMPLE_RATE_SAMPLES as int,
        );
        vstd::arithmetic::div_mod::lemma_div_is_ordered(
            rate as int * 1024,
            655_360int * 1024,
            SAMPLE_RATE_SAMPLES as int,
        );
        assert(655_360int * 1024 / (SAMPLE_RATE_SAMPLES as int) < TAPE_LFO_ONE);
    }
    let inc = div_pos(rate * 1024, SAMPLE_RATE_SAMPLES as i64);
    let p = phase + inc;
    if p >= TAPE_LFO_ONE {
        p - TAPE_LFO_ONE
    } else {
        p
    }
}

/// Variable-speed playback position with cubic interpolation.
pub struct SpeedControl {
    /// Playback speed, fixed-point, within `[1/4, 4]`.
    pub speed: i64,
    /// Fractional read position, fixed-point samples.
    pub fractional_pos: i64,
}

/// Cubic Hermite interpolation of four neighbouring samples at a fractional
/// offset in `[0, 1)`.
pub open spec fn cubic_spec(y0: int, y1: int, y2: int, y3: int, frac: int) -> int {
    let a = tdiv(-y0 + 3 * y1 - 3 * y2 + y3, 2);
    let b = tdiv(2 * y0 - 5 * y1 + 4 * y2 - y3, 2);
    let c = tdiv(y2 - y0, 2);
    fx_mul_spec(fx_mul_spec(fx_mul_spec(a, frac) + b, frac) + c, frac) + y1
}

impl SpeedControl {
    pub open spec fn inv(self) -> bool {
        &&& 16_384 <= self.speed <= 262_144
        &&& 0 <= self.fractional_pos
    }

    pub fn new() -> (s: SpeedControl)
        ensures
            s.inv(),
            s.speed == FX_ONE,
            s.fractional_pos == 0,
    {
        SpeedControl { speed: FX_ONE, fractional_pos: 0 }
    }

    /// Sets the speed, clamped into `[1/4, 4]`.
    pub fn set_speed(&mut self, speed: i64)
        requires
            old(self).inv(),
        ensures
            final(self).inv(),
            final(self).speed == clamp_spec(speed as int, 16_384, 262_144),
            final(self).fractional_pos == old(self).fractional_pos,
    {
        self.speed = clamp_i64(speed, 16_384, 262_144);
    }

    /// Re-anchors the fractional position at a whole sample position and
    /// returns it in fixed-point samples.
    pub fn advance(&mut self, base_position: usize) -> (r: i64)
        requires
            old(self).inv(),
            base_position <= TRACK_SAMPLES,
        ensures
            final(self).inv(),
            final(self).speed == old(self).speed,
            r == base_position * FX_ONE,
            final(self).fractional_pos == r,
    {
        proof {
            assert((base_position as int) * (FX_ONE as int) <= (TRACK_SAMPLES as int) * (
            FX_ONE as int)) by (nonlinear_arith)
                requires
                    base_position <= TRACK_SAMPLES,
            ;
            vstd::arithmetic::mul::lemma_mul_nonnegative(base_position as int, FX_ONE as int);
        }
        let p = (base_position as i64) * FX_ONE;
        self.fractional_pos = p;
        p
    }

    /// Reads a sample at a fractional position with cubic interpolation;
    /// positions outside the interpolable interior fall back to the nearest
    /// sample or silence, and buffers too short to interpolate read as
    /// silence.
    #[verifier::rlimit(100)]
    pub fn read_interpolated(&self, buffer: &Vec<i32>, position: i64) -> (r: i64)
        requires
            self.inv(),
            buffer@.len() <= TRACK_SAMPLES,
            0 <= position <= (TRACK_SAMPLES as i64) * FX_ONE,
        ensures
            buffer@.len() < 4 ==> r == 0,
            buffer@.len() >= 4 ==> {
                let idx = position as int / (FX_ONE as int);
                let frac = position as int % (FX_ONE as int);
                if idx + 2 >= buffer@.len() {
                    r == (if idx < buffer@.len() {
                        buffer@[idx] as int
                    } else {
                        0
                    })
                } else {
                    r == cubic_spec(
                        (if idx > 0 {
                            buffer@[idx - 1] as int
                        } else {
                            buffer@[0] as int
                        }),
                        buffer@[idx] as int,
                        buffer@[idx + 1] as int,
                        (if idx + 2 < buffer@.len() - 1 {
                            buffer@[idx + 2] as int
                        } else {
                            buffer@[buffer@.len() - 1] as int
                        }),
                        frac,
                    )
                }
            },
    {
        let len = buffer.len();
        if len < 4 {
            return 0;
        }
        let idx = (div_pos(position, FX_ONE)) as usize;
        let frac = position - (idx as i64) * FX_ONE;
        proof {
            vstd::arithmetic::div_mod::lemma_fundamental_div_mod(position as int, FX_ONE as int);
            vstd::arithmetic::div_mod::lemma_div_pos_is_pos(position as int, FX_ONE as int);
            vstd::arithmetic::div_mod::lemma_div_is_ordered(
                position as int,
                (TRACK_SAMPLES as i64) * FX_ONE as int,
                FX_ONE as int,
            );
            vstd::arithmetic::div_mod::lemma_div_by_multiple(TRACK_SAMPLES as int, FX_ONE as int);
        }
        if idx + 2 >= len {
            if idx < len {
                return buffer[idx] as i64;
            }
            return 0;
        }
        let y0: i64 = if idx > 0 {
            buffer[idx - 1] as i64
        } else {
            buffer[0] as i64
        };
        let y1 = buffer[idx] as i64;
        let y2 = buffer[idx + 1] as i64;
        let y3: i64 = if idx + 2 < len - 1 {
            buffer[idx + 2] as i64
        } else {
            buffer[len - 1] as i64
        };
        let a = div_trunc(-y0 + 3 * y1 - 3 * y2 + y3, 2);
        let b = div_trunc(2 * y0 - 5 * y1 + 4 * y2 - y3, 2);
        let c = div_trunc(y2 - y0, 2);
        proof {
            crate::fx::lemma_mul_fits(a as int, frac as int, 0x4_0000_0000, FX_ONE as int);
            lemma_fx_mul_contract(a as int, frac as int);
        }
        let t1 = fx_mul(a, frac) + b;
        proof {
            crate::fx::lemma_mul_fits(t1 as int, frac as int, 0x8_0000_0000, FX_ONE as int);
            lemma_fx_mul_contract(t1 as int, frac as int);
        }
        let t2 = fx_mul(t1, frac) + c;
        proof {
            crate::fx::lemma_mul_fits(t2 as int, frac as int, 0x10_0000_0000, FX_ONE as int);
            lemma_fx_mul_contract(t2 as int, frac as int);
        }
        fx_mul(t2, frac) + y1
    }
}

} // verus!
