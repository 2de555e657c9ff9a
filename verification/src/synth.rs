//! Polyphonic synthesis engines over a closed set of variants: a plain sine,
//! a band-limited saw into a resonant lowpass, two-operator FM, a plucked
//! string (Karplus-Strong), and filtered noise. Every engine drives eight
//! voices through a shared linear attack / release envelope; a `note_on`
//! takes the first free slot, else deterministically steals slot 0.

use vstd::prelude::*;

use crate::constants::{FX_ONE, SAMPLE_RATE_SAMPLES};
use crate::fx::{
    abs_spec, clamp_i64, clamp_spec, div_pos, div_trunc, fx_mul, fx_mul_spec, lcg_next,
    lcg_next_spec, lemma_fx_mul_contract, noise_of, noise_sample, osc_wave, osc_wave_spec, tdiv,
};

verus! {

pub const MAX_VOICES: usize = 8;

pub const ENGINE_COUNT: usize = 5;

/// Full envelope level. Envelopes run at a finer scale than samples so that
/// even the slowest attack still moves every sample.
pub const ENV_ONE: i64 = 1_073_741_824;

/// `ENV_ONE * FX_ONE`, the numerator that turns a time parameter into a
/// per-sample envelope rate.
pub const ENV_RATE_NUM: i64 = 70_368_744_177_664;

/// Largest frequency a note maps to, fixed-point Hz.
pub const MAX_NOTE_FREQ: i64 = 1_100_000_000;

/// Instantaneous oscillator frequencies (after FM deviation) are clamped
/// below this so a phase step always stays within one cycle.
pub const MAX_INST_FREQ: i64 = 2_600_000_000;

/// Filter states are kept within this guard so the recurrences stay finite.
pub const FSTATE_MAX: i64 = 67_108_864;

/// Bound on one voice's contribution to a tick.
pub const VOICE_OUT_MAX: i64 = 67_108_864;

/// Bound on an engine tick's output.
pub const SYNTH_OUT_MAX: i64 = 536_870_912;

/// Longest Karplus-Strong delay line.
pub const MAX_LINE: usize = 4096;

#[derive(Clone, Copy, PartialEq, Eq, Structural, Debug)]
pub enum EngineKind {
    Sine,
    Saw,
    Fm,
    Plucked,
    Noise,
}

/// One voice slot. Which fields matter depends on the engine kind; unused
/// ones stay at rest.
pub struct SynthVoice {
    pub active: bool,
    pub releasing: bool,
    pub note: u8,
    /// Envelope level in `[0, ENV_ONE]`.
    pub env: i64,
    /// Note frequency, fixed-point Hz.
    pub freq: i64,
    /// Main oscillator phase in `[0, 1)` cycles.
    pub phase: i64,
    /// Modulator phase (FM) in `[0, 1)` cycles.
    pub phase2: i64,
    /// Lowpass / state-variable filter state.
    pub filter_lp: i64,
    pub filter_bp: i64,
    /// Previous sample of the string averaging filter.
    pub prev: i64,
    /// Noise generator state.
    pub rng: u32,
    /// Karplus-Strong delay line; empty unless plucked.
    pub line: Vec<i64>,
    /// Read/write position within `line`.
    pub dpos: usize,
}

impl SynthVoice {
    pub open spec fn inv(self) -> bool {
        &&& 0 <= self.env <= ENV_ONE
        &&& 0 <= self.freq <= MAX_NOTE_FREQ
        &&& 0 <= self.phase < FX_ONE
        &&& 0 <= self.phase2 < FX_ONE
        &&& -FSTATE_MAX <= self.filter_lp <= FSTATE_MAX
        &&& -FSTATE_MAX <= self.filter_bp <= FSTATE_MAX
        &&& -FX_ONE <= self.prev <= FX_ONE
        &&& self.line@.len() <= MAX_LINE
        &&& (self.line@.len() > 0 ==> self.dpos < self.line@.len())
        &&& forall|i: int|
            0 <= i < self.line@.len() ==> -FX_ONE <= #[trigger] self.line@[i] <= FX_ONE
    }
}

/// Parameter ranges each kind keeps its four parameters in; `set_param`
/// clamps into these and constructors start inside them.
pub open spec fn params_inv(kind: EngineKind, params: [i64; 4]) -> bool {
    &&& match kind {
        EngineKind::Sine => true,
        EngineKind::Saw => 655 <= params@[0] <= FX_ONE && 0 <= params@[1] <= 62259,
        EngineKind::Fm => FX_ONE <= params@[0] <= 8 * FX_ONE && 0 <= params@[1] <= 5 * FX_ONE,
        EngineKind::Plucked => 6554 <= params@[0] <= FX_ONE && 64881 <= params@[1] <= 65471,
        EngineKind::Noise => 655 <= params@[0] <= FX_ONE && 0 <= params@[1] <= 62259,
    }
    &&& 66 <= params@[2] <= 655_360
    &&& 655 <= params@[3] <= 655_360
}

/// Per-sample envelope rate for a time parameter (seconds, fixed-point).
pub open spec fn env_rate_spec(time: int) -> int {
    (ENV_RATE_NUM as int) / (time * SAMPLE_RATE_SAMPLES)
}

pub proof fn lemma_env_rate_in_range(time: int)
    requires
        66 <= time <= 655_360,
    ensures
        1 <= env_rate_spec(time) <= ENV_ONE,
{
    assert(66 * (SAMPLE_RATE_SAMPLES as int) <= time * (SAMPLE_RATE_SAMPLES as int) <= 655_360 * (
    SAMPLE_RATE_SAMPLES as int)) by (nonlinear_arith)
        requires
            66 <= time <= 655_360,
    ;
    vstd::arithmetic::div_mod::lemma_div_is_ordered_by_denominator(
        ENV_RATE_NUM as int,
        66 * (SAMPLE_RATE_SAMPLES as int),
        time * (SAMPLE_RATE_SAMPLES as int),
    );
    vstd::arithmetic::div_mod::lemma_div_is_ordered_by_denominator(
        ENV_RATE_NUM as int,
        time * (SAMPLE_RATE_SAMPLES as int),
        655_360 * (SAMPLE_RATE_SAMPLES as int),
    );
    vstd::arithmetic::div_mod::lemma_fundamental_div_mod_converse(
        ENV_RATE_NUM as int,
        2_910_600,
        24_176_714,
        409_264,
    );
    vstd::arithmetic::div_mod::lemma_fundamental_div_mod_converse(
        ENV_RATE_NUM as int,
        28_901_376_000,
        2_434,
        22_794_993_664,
    );
}

fn env_rate(time: i64) -> (r: i64)
    requires
        66 <= time <= 655_360,
    ensures
        r == env_rate_spec(time as int),
        1 <= r <= ENV_ONE,
{
    proof {
        lemma_env_rate_in_range(time as int);
        assert(66 * (SAMPLE_RATE_SAMPLES as int) <= (time as int) * (SAMPLE_RATE_SAMPLES as int)
            <= 655_360 * (SAMPLE_RATE_SAMPLES as int)) by (nonlinear_arith)
            requires
                66 <= time <= 655_360,
        ;
    }
    let den = time * (SAMPLE_RATE_SAMPLES as i64);
    div_pos(ENV_RATE_NUM, den)
}

/// The envelope after one sample: releasing voices ramp down, held voices
/// ramp up toward full, saturating at both ends.
pub open spec fn env_next_spec(releasing: bool, env: int, att: int, rel: int) -> int {
    if releasing {
        if env - rel <= 0 {
            0
        } else {
            env - rel
        }
    } else {
        if env + att >= ENV_ONE {
            ENV_ONE as int
        } else {
            env + att
        }
    }
}

/// Whether the voice survives the envelope stage.
pub open spec fn env_alive_spec(releasing: bool, env: int, rel: int) -> bool {
    !(releasing && env - rel <= 0)
}

/// A voice's envelope as a sample gain in `[0, FX_ONE]`.
pub open spec fn env_gain_spec(env: int) -> int {
    env / 16384
}

pub proof fn lemma_env_gain_range(env: int)
    requires
        0 <= env <= ENV_ONE,
    ensures
        0 <= env_gain_spec(env) <= FX_ONE,
{
    vstd::arithmetic::div_mod::lemma_div_pos_is_pos(env, 16384);
    vstd::arithmetic::div_mod::lemma_div_is_ordered(env, ENV_ONE as int, 16384);
}

/// The phase one sample later at the given nonnegative frequency.
pub open spec fn phase_next_spec(phase: int, freq: int) -> int {
    let inc = freq / (SAMPLE_RATE_SAMPLES as int);
    if phase + inc >= FX_ONE {
        phase + inc - FX_ONE
    } else {
        phase + inc
    }
}

pub proof fn lemma_phase_next_range(phase: int, freq: int)
    requires
        0 <= phase < FX_ONE,
        0 <= freq <= MAX_INST_FREQ,
    ensures
        0 <= phase_next_spec(phase, freq) < FX_ONE,
        0 <= freq / (SAMPLE_RATE_SAMPLES as int) < FX_ONE,
{
    vstd::arithmetic::div_mod::lemma_div_pos_is_pos(freq, SAMPLE_RATE_SAMPLES as int);
    vstd::arithmetic::div_mod::lemma_div_is_ordered(
        freq,
        MAX_INST_FREQ as int,
        SAMPLE_RATE_SAMPLES as int,
    );
    assert((MAX_INST_FREQ as int) / (SAMPLE_RATE_SAMPLES as int) < FX_ONE);
}

fn phase_next(phase: i64, freq: i64) -> (r: i64)
    requires
        0 <= phase < FX_ONE,
        0 <= freq <= MAX_INST_FREQ,
    ensures
        r == phase_next_spec(phase as int, freq as int),
        0 <= r < FX_ONE,
{
    proof {
        lemma_phase_next_range(phase as int, freq as int);
    }
    let inc = div_pos(freq, SAMPLE_RATE_SAMPLES as i64);
    let p = phase + inc;
    if p >= FX_ONE {
        p - FX_ONE
    } else {
        p
    }
}

/// The band-limited saw wave at a phase, given the per-sample phase step:
/// a rising ramp with a polynomial correction smoothing the wrap.
pub open spec fn saw_raw_spec(phase: int, dt: int) -> int {
    let naive = 2 * phase - FX_ONE;
    if phase < dt {
        let u = phase * FX_ONE / dt;
        naive + 2 * u - u * u / (FX_ONE as int) - FX_ONE
    } else if phase > FX_ONE - dt {
        let m = (FX_ONE - phase) * FX_ONE / dt;
        naive + m * m / (FX_ONE as int) - 2 * m + FX_ONE
    } else {
        naive
    }
}

pub proof fn lemma_saw_raw_range(phase: int, dt: int)
    requires
        0 <= phase < FX_ONE,
        1 <= dt < FX_ONE,
    ensures
        -3 * FX_ONE <= saw_raw_spec(phase, dt) <= 3 * FX_ONE,
{
    let f = FX_ONE as int;
    if phase < dt {
        let u = phase * f / dt;
        assert(phase * f < dt * f) by (nonlinear_arith)
            requires
                0 <= phase < dt,
                f > 0,
        ;
        vstd::arithmetic::div_mod::lemma_multiply_divide_lt(phase * f, dt, f);
        vstd::arithmetic::div_mod::lemma_div_pos_is_pos(phase * f, dt);
        assert(0 <= u < f);
        assert(0 <= u * u <= u * f) by (nonlinear_arith)
            requires
                0 <= u < f,
        ;
        vstd::arithmetic::div_mod::lemma_div_pos_is_pos(u * u, f);
        vstd::arithmetic::div_mod::lemma_div_is_ordered(u * u, u * f, f);
        vstd::arithmetic::div_mod::lemma_div_by_multiple(u, f);
    } else if phase > f - dt {
        let m = (f - phase) * f / dt;
        assert((f - phase) * f < dt * f) by (nonlinear_arith)
            requires
                0 <= f - phase < dt,
                f > 0,
        ;
        vstd::arithmetic::div_mod::lemma_multiply_divide_lt((f - phase) * f, dt, f);
        vstd::arithmetic::div_mod::lemma_div_pos_is_pos((f - phase) * f, dt);
        assert(0 <= m < f);
        assert(0 <= m * m <= m * f) by (nonlinear_arith)
            requires
                0 <= m < f,
        ;
        vstd::arithmetic::div_mod::lemma_div_pos_is_pos(m * m, f);
        vstd::arithmetic::div_mod::lemma_div_is_ordered(m * m, m * f, f);
        vstd::arithmetic::div_mod::lemma_div_by_multiple(m, f);
    }
}

fn saw_raw(phase: i64, dt: i64) -> (r: i64)
    requires
        0 <= phase < FX_ONE,
        1 <= dt < FX_ONE,
    ensures
        r == saw_raw_spec(phase as int, dt as int),
        -3 * FX_ONE <= r <= 3 * FX_ONE,
{
    proof {
        lemma_saw_raw_range(phase as int, dt as int);
    }
    let naive = 2 * phase - FX_ONE;
    if phase < dt {
        proof {
            assert(0 <= (phase as int) * (FX_ONE as int) < (dt as int) * (FX_ONE as int))
                by (nonlinear_arith)
                requires
                    0 <= phase < dt,
            ;
            vstd::arithmetic::div_mod::lemma_multiply_divide_lt(
                (phase as int) * (FX_ONE as int),
                dt as int,
                FX_ONE as int,
            );
            vstd::arithmetic::div_mod::lemma_div_pos_is_pos(
                (phase as int) * (FX_ONE as int),
                dt as int,
            );
        }
        let u = div_pos(phase * FX_ONE, dt);
        proof {
            assert(0 <= (u as int) * (u as int) <= (u as int) * (FX_ONE as int))
                by (nonlinear_arith)
                requires
                    0 <= u < FX_ONE,
            ;
            vstd::arithmetic::div_mod::lemma_div_pos_is_pos((u as int) * (u as int), FX_ONE as int);
            vstd::arithmetic::div_mod::lemma_div_is_ordered(
                (u as int) * (u as int),
                (u as int) * (FX_ONE as int),
                FX_ONE as int,
            );
            vstd::arithmetic::div_mod::lemma_div_by_multiple(u as int, FX_ONE as int);
        }
        let usq = div_pos(u * u, FX_ONE);
        naive + 2 * u - usq - FX_ONE
    } else if phase > FX_ONE - dt {
        proof {
            assert(0 <= (FX_ONE - phase as int) * (FX_ONE as int) < (dt as int) * (FX_ONE as int))
                by (nonlinear_arith)
                requires
                    0 <= FX_ONE - phase < dt,
            ;
            vstd::arithmetic::div_mod::lemma_multiply_divide_lt(
                (FX_ONE - phase as int) * (FX_ONE as int),
                dt as int,
                FX_ONE as int,
            );
            vstd::arithmetic::div_mod::lemma_div_pos_is_pos(
                (FX_ONE - phase as int) * (FX_ONE as int),
                dt as int,
            );
        }
        let m = div_pos((FX_ONE - phase) * FX_ONE, dt);
        proof {
            assert(0 <= (m as int) * (m as int) <= (m as int) * (FX_ONE as int))
                by (nonlinear_arith)
                requires
                    0 <= m < FX_ONE,
            ;
            vstd::arithmetic::div_mod::lemma_div_pos_is_pos((m as int) * (m as int), FX_ONE as int);
            vstd::arithmetic::div_mod::lemma_div_is_ordered(
                (m as int) * (m as int),
                (m as int) * (FX_ONE as int),
                FX_ONE as int,
            );
            vstd::arithmetic::div_mod::lemma_div_by_multiple(m as int, FX_ONE as int);
        }
        let msq = div_pos(m * m, FX_ONE);
        naive + msq - 2 * m + FX_ONE
    } else {
        naive
    }
}


/// The saw engine's lowpass coefficient derived from the cutoff parameter.
pub open spec fn saw_coeff_spec(cutoff: int) -> int {
    clamp_spec(fx_mul_spec(cutoff, cutoff), 66, 65470)
}

/// The noise engine's filter coefficient derived from the cutoff parameter.
pub open spec fn noise_coeff_spec(cutoff: int) -> int {
    clamp_spec(fx_mul_spec(fx_mul_spec(cutoff, cutoff), 64881), 66, 64881)
}

/// The per-sample phase step of the saw oscillator, at least one unit.
pub open spec fn saw_dt_spec(freq: int) -> int {
    let inc = freq / (SAMPLE_RATE_SAMPLES as int);
    if inc < 1 {
        1
    } else {
        inc
    }
}

/// Fields the envelope stage never touches are carried over unchanged.
pub open spec fn same_dsp(a: SynthVoice, b: SynthVoice) -> bool {
    &&& b.phase == a.phase
    &&& b.phase2 == a.phase2
    &&& b.filter_lp == a.filter_lp
    &&& b.filter_bp == a.filter_bp
    &&& b.prev == a.prev
    &&& b.rng == a.rng
    &&& b.line@ == a.line@
    &&& b.dpos == a.dpos
}

/// The FM voice's instantaneous carrier frequency: the note frequency
/// deviated by the modulator, clamped to a representable sweep range.
pub open spec fn fm_carrier_freq_spec(p: [i64; 4], v: SynthVoice) -> int {
    clamp_spec(
        v.freq + fx_mul_spec(fx_mul_spec(osc_wave_spec(v.phase2 as int), p@[1] as int), v.freq as int),
        0,
        MAX_INST_FREQ as int,
    )
}

/// The FM modulator frequency, clamped the same way.
pub open spec fn fm_mod_freq_spec(p: [i64; 4], v: SynthVoice) -> int {
    clamp_spec(fx_mul_spec(p@[0] as int, v.freq as int), 0, MAX_INST_FREQ as int)
}

/// The saw voice's filter state after one sample.
pub open spec fn saw_lp_next_spec(p: [i64; 4], v: SynthVoice) -> int {
    let raw = saw_raw_spec(v.phase as int, saw_dt_spec(v.freq as int));
    clamp_spec(
        v.filter_lp + fx_mul_spec(saw_coeff_spec(p@[0] as int), raw - v.filter_lp),
        -FSTATE_MAX as int,
        FSTATE_MAX as int,
    )
}

/// The noise voice's state-variable filter after one sample:
/// `(lp, bp)` driven by the freshly stepped noise generator.
pub open spec fn noise_lp_next_spec(p: [i64; 4], v: SynthVoice) -> int {
    clamp_spec(
        v.filter_lp + fx_mul_spec(noise_coeff_spec(p@[0] as int), v.filter_bp as int),
        -FSTATE_MAX as int,
        FSTATE_MAX as int,
    )
}

pub open spec fn noise_hp_spec(p: [i64; 4], v: SynthVoice) -> int {
    noise_of(lcg_next_spec(v.rng)) - noise_lp_next_spec(p, v) - fx_mul_spec(
        FX_ONE - p@[1] as int,
        v.filter_bp as int,
    )
}

pub open spec fn noise_bp_next_spec(p: [i64; 4], v: SynthVoice) -> int {
    clamp_spec(
        v.filter_bp + fx_mul_spec(noise_coeff_spec(p@[0] as int), noise_hp_spec(p, v)),
        -FSTATE_MAX as int,
        FSTATE_MAX as int,
    )
}

/// The plucked voice's averaged, damped delay-line sample.
pub open spec fn pluck_filtered_spec(p: [i64; 4], v: SynthVoice) -> int {
    fx_mul_spec(p@[1] as int, tdiv(v.line@[v.dpos as int] + v.prev, 2))
}

/// What one voice adds to the engine's tick, computed from its state before
/// the step.
pub open spec fn voice_out_spec(kind: EngineKind, p: [i64; 4], v: SynthVoice) -> int {
    let rel = env_rate_spec(p@[3] as int);
    if !v.active || !env_alive_spec(v.releasing, v.env as int, rel) {
        0
    } else {
        let att = env_rate_spec(p@[2] as int);
        let g = env_gain_spec(env_next_spec(v.releasing, v.env as int, att, rel));
        match kind {
            EngineKind::Sine => fx_mul_spec(fx_mul_spec(osc_wave_spec(v.phase as int), g), 19661),
            EngineKind::Saw => {
                let raw = saw_raw_spec(v.phase as int, saw_dt_spec(v.freq as int));
                let lp = saw_lp_next_spec(p, v);
                let filtered = lp + fx_mul_spec(p@[1] as int, lp - raw);
                fx_mul_spec(fx_mul_spec(filtered, g), 16384)
            },
            EngineKind::Fm => fx_mul_spec(fx_mul_spec(osc_wave_spec(v.phase as int), g), 16384),
            EngineKind::Plucked => {
                if v.line@.len() < 2 {
                    0
                } else {
                    fx_mul_spec(fx_mul_spec(pluck_filtered_spec(p, v), g), 26214)
                }
            },
            EngineKind::Noise => fx_mul_spec(fx_mul_spec(noise_lp_next_spec(p, v), g), 19661),
        }
    }
}

/// How one voice's state advances over a sample: the envelope stage runs
/// first and may silence the voice; a surviving voice then runs its
/// kind-specific oscillator and filter updates.
pub open spec fn voice_stepped(kind: EngineKind, p: [i64; 4], a: SynthVoice, b: SynthVoice) -> bool {
    let att = env_rate_spec(p@[2] as int);
    let rel = env_rate_spec(p@[3] as int);
    &&& b.note == a.note
    &&& b.freq == a.freq
    &&& b.releasing == a.releasing
    &&& if !a.active {
        &&& same_dsp(a, b)
        &&& !b.active
        &&& b.env == a.env
    } else if !env_alive_spec(a.releasing, a.env as int, rel) {
        &&& same_dsp(a, b)
        &&& !b.active
        &&& b.env == 0
    } else {
        &&& b.env == env_next_spec(a.releasing, a.env as int, att, rel)
        &&& match kind {
            EngineKind::Sine => {
                &&& b.active
                &&& b.phase == phase_next_spec(a.phase as int, a.freq as int)
                &&& b.phase2 == a.phase2
                &&& b.filter_lp == a.filter_lp
                &&& b.filter_bp == a.filter_bp
                &&& b.prev == a.prev
                &&& b.rng == a.rng
                &&& b.line@ == a.line@
                &&& b.dpos == a.dpos
            },
            EngineKind::Saw => {
                &&& b.active
                &&& b.phase == phase_next_spec(a.phase as int, a.freq as int)
                &&& b.filter_lp == saw_lp_next_spec(p, a)
                &&& b.phase2 == a.phase2
                &&& b.filter_bp == a.filter_bp
                &&& b.prev == a.prev
                &&& b.rng == a.rng
                &&& b.line@ == a.line@
                &&& b.dpos == a.dpos
            },
            EngineKind::Fm => {
                &&& b.active
                &&& b.phase == phase_next_spec(a.phase as int, fm_carrier_freq_spec(p, a))
                &&& b.phase2 == phase_next_spec(a.phase2 as int, fm_mod_freq_spec(p, a))
                &&& b.filter_lp == a.filter_lp
                &&& b.filter_bp == a.filter_bp
                &&& b.prev == a.prev
                &&& b.rng == a.rng
                &&& b.line@ == a.line@
                &&& b.dpos == a.dpos
            },
            EngineKind::Plucked => {
                if a.line@.len() < 2 {
                    &&& same_dsp(a, b)
                    &&& !b.active
                } else {
                    &&& b.active
                    &&& b.line@ == a.line@.update(
                        a.dpos as int,
                        pluck_filtered_spec(p, a) as i64,
                    )
                    &&& b.dpos == (a.dpos + 1) % (a.line@.len() as int)
                    &&& b.prev == a.line@[a.dpos as int]
                    &&& b.phase == a.phase
                    &&& b.phase2 == a.phase2
                    &&& b.filter_lp == a.filter_lp
                    &&& b.filter_bp == a.filter_bp
                    &&& b.rng == a.rng
                }
            },
            EngineKind::Noise => {
                &&& b.active
                &&& b.rng == lcg_next_spec(a.rng)
                &&& b.filter_lp == noise_lp_next_spec(p, a)
                &&& b.filter_bp == noise_bp_next_spec(p, a)
                &&& b.phase == a.phase
                &&& b.phase2 == a.phase2
                &&& b.prev == a.prev
                &&& b.line@ == a.line@
                &&& b.dpos == a.dpos
            },
        }
    }
}

/// Steps one voice and returns its contribution.
fn step_voice(kind: EngineKind, p: [i64; 4], v: &mut SynthVoice) -> (out: i64)
    requires
        old(v).inv(),
        params_inv(kind, p),
    ensures
        final(v).inv(),
        voice_stepped(kind, p, *old(v), *final(v)),
        out == voice_out_spec(kind, p, *old(v)),
        -VOICE_OUT_MAX <= out <= VOICE_OUT_MAX,
{
    proof {
        lemma_env_rate_in_range(p@[2] as int);
        lemma_env_rate_in_range(p@[3] as int);
    }
    if !v.active {
        return 0;
    }
    let att = env_rate(p[2]);
    let rel = env_rate(p[3]);
    if v.releasing {
        if v.env - rel <= 0 {
            v.env = 0;
            v.active = false;
            return 0;
        }
        v.env = v.env - rel;
    } else {
        if v.env + att >= ENV_ONE {
            v.env = ENV_ONE;
        } else {
            v.env = v.env + att;
        }
    }
    proof {
        lemma_env_gain_range(v.env as int);
    }
    let g = div_pos(v.env, 16384);
    match kind {
        EngineKind::Sine => dsp_sine(v, g),
        EngineKind::Saw => dsp_saw(p, v, g),
        EngineKind::Fm => dsp_fm(p, v, g),
        EngineKind::Plucked => dsp_pluck(p, v, g),
        EngineKind::Noise => dsp_noise(p, v, g),
    }
}

/// The sine oscillator under the envelope gain.
fn dsp_sine(v: &mut SynthVoice, g: i64) -> (out: i64)
    requires
        old(v).inv(),
        0 <= g <= FX_ONE,
    ensures
        final(v).inv(),
        *final(v) == (SynthVoice {
            phase: phase_next_spec(old(v).phase as int, old(v).freq as int) as i64,
            ..*old(v)
        }),
        out == fx_mul_spec(fx_mul_spec(osc_wave_spec(old(v).phase as int), g as int), 19661),
        -VOICE_OUT_MAX <= out <= VOICE_OUT_MAX,
{
    let osc = osc_wave(v.phase);
    proof {
        lemma_fx_mul_contract(osc as int, g as int);
        lemma_fx_mul_contract(fx_mul_spec(osc as int, g as int), 19661);
    }
    let out = fx_mul(fx_mul(osc, g), 19661);
    v.phase = phase_next(v.phase, v.freq);
    out
}

/// The band-limited saw through its one-pole resonant lowpass.
fn dsp_saw(p: [i64; 4], v: &mut SynthVoice, g: i64) -> (out: i64)
    requires
        old(v).inv(),
        params_inv(EngineKind::Saw, p),
        0 <= g <= FX_ONE,
    ensures
        final(v).inv(),
        *final(v) == (SynthVoice {
            phase: phase_next_spec(old(v).phase as int, old(v).freq as int) as i64,
            filter_lp: saw_lp_next_spec(p, *old(v)) as i64,
            ..*old(v)
        }),
        out == ({
            let raw = saw_raw_spec(old(v).phase as int, saw_dt_spec(old(v).freq as int));
            let lp = saw_lp_next_spec(p, *old(v));
            fx_mul_spec(fx_mul_spec(lp + fx_mul_spec(p@[1] as int, lp - raw), g as int), 16384)
        }),
        -VOICE_OUT_MAX <= out <= VOICE_OUT_MAX,
{
    proof {
        vstd::arithmetic::div_mod::lemma_div_pos_is_pos(
            v.freq as int,
            SAMPLE_RATE_SAMPLES as int,
        );
        vstd::arithmetic::div_mod::lemma_div_is_ordered(
            v.freq as int,
            MAX_INST_FREQ as int,
            SAMPLE_RATE_SAMPLES as int,
        );
        assert((MAX_INST_FREQ as int) / (SAMPLE_RATE_SAMPLES as int) < FX_ONE);
    }
    let inc = div_pos(v.freq, SAMPLE_RATE_SAMPLES as i64);
    let dt = if inc < 1 {
        1
    } else {
        inc
    };
    let raw = saw_raw(v.phase, dt);
    proof {
        crate::fx::lemma_mul_fits(p@[0] as int, p@[0] as int, FX_ONE as int, FX_ONE as int);
    }
    let coeff = clamp_i64(fx_mul(p[0], p[0]), 66, 65470);
    proof {
        lemma_fx_mul_contract(raw as int - v.filter_lp as int, coeff as int);
        crate::fx::lemma_mul_fits(
            coeff as int,
            raw as int - v.filter_lp as int,
            FX_ONE as int,
            FSTATE_MAX + 3 * FX_ONE,
        );
    }
    let lp = clamp_i64(v.filter_lp + fx_mul(coeff, raw - v.filter_lp), -FSTATE_MAX, FSTATE_MAX);
    proof {
        lemma_fx_mul_contract(lp as int - raw as int, p@[1] as int);
        crate::fx::lemma_mul_fits(
            p@[1] as int,
            lp as int - raw as int,
            FX_ONE as int,
            FSTATE_MAX + 3 * FX_ONE,
        );
    }
    let filtered = lp + fx_mul(p[1], lp - raw);
    proof {
        lemma_fx_mul_contract(filtered as int, g as int);
        lemma_fx_mul_contract(fx_mul_spec(filtered as int, g as int), 16384);
        crate::fx::lemma_mul_fits(
            filtered as int,
            g as int,
            2 * FSTATE_MAX + 3 * FX_ONE,
            FX_ONE as int,
        );
    }
    let out = fx_mul(fx_mul(filtered, g), 16384);
    v.filter_lp = lp;
    v.phase = phase_next(v.phase, v.freq);
    out
}

/// The FM carrier under the envelope gain; both phases advance at their
/// clamped instantaneous frequencies.
fn dsp_fm(p: [i64; 4], v: &mut SynthVoice, g: i64) -> (out: i64)
    requires
        old(v).inv(),
        params_inv(EngineKind::Fm, p),
        0 <= g <= FX_ONE,
    ensures
        final(v).inv(),
        *final(v) == (SynthVoice {
            phase: phase_next_spec(old(v).phase as int, fm_carrier_freq_spec(p, *old(v))) as i64,
            phase2: phase_next_spec(old(v).phase2 as int, fm_mod_freq_spec(p, *old(v))) as i64,
            ..*old(v)
        }),
        out == fx_mul_spec(fx_mul_spec(osc_wave_spec(old(v).phase as int), g as int), 16384),
        -VOICE_OUT_MAX <= out <= VOICE_OUT_MAX,
{
    let modosc = osc_wave(v.phase2);
    proof {
        crate::fx::lemma_fx_mul_by_unit(modosc as int, p@[1] as int);
        crate::fx::lemma_mul_fits(modosc as int, p@[1] as int, FX_ONE as int, 5 * FX_ONE as int);
    }
    let depth = fx_mul(modosc, p[1]);
    proof {
        crate::fx::lemma_mul_fits(
            depth as int,
            v.freq as int,
            5 * FX_ONE as int,
            MAX_NOTE_FREQ as int,
        );
    }
    let dev = fx_mul(depth, v.freq);
    proof {
        assert(abs_spec(dev as int) * (FX_ONE as int) <= abs_spec(
            (depth as int) * (v.freq as int),
        ));
        assert(abs_spec((depth as int) * (v.freq as int)) <= 5 * (FX_ONE as int) * (
        MAX_NOTE_FREQ as int)) by (nonlinear_arith)
            requires
                abs_spec(depth as int) <= 5 * FX_ONE,
                0 <= v.freq <= MAX_NOTE_FREQ,
        ;
        assert(abs_spec(dev as int) <= 5 * (MAX_NOTE_FREQ as int)) by (nonlinear_arith)
            requires
                abs_spec(dev as int) * (FX_ONE as int) <= 5 * (FX_ONE as int) * (
                MAX_NOTE_FREQ as int),
        ;
        crate::fx::lemma_mul_fits(
            p@[0] as int,
            v.freq as int,
            8 * FX_ONE as int,
            MAX_NOTE_FREQ as int,
        );
    }
    let cf = clamp_i64(v.freq + dev, 0, MAX_INST_FREQ);
    let mf = clamp_i64(fx_mul(p[0], v.freq), 0, MAX_INST_FREQ);
    let carrier = osc_wave(v.phase);
    proof {
        lemma_fx_mul_contract(carrier as int, g as int);
        lemma_fx_mul_contract(fx_mul_spec(carrier as int, g as int), 16384);
    }
    let out = fx_mul(fx_mul(carrier, g), 16384);
    v.phase = phase_next(v.phase, cf);
    v.phase2 = phase_next(v.phase2, mf);
    out
}

/// One Karplus-Strong step: average, damp, write back and move on. A line
/// too short to average silences the voice.
fn dsp_pluck(p: [i64; 4], v: &mut SynthVoice, g: i64) -> (out: i64)
    requires
        old(v).inv(),
        params_inv(EngineKind::Plucked, p),
        0 <= g <= FX_ONE,
    ensures
        final(v).inv(),
        old(v).line@.len() < 2 ==> !final(v).active && same_dsp(*old(v), *final(v))
            && final(v).env == old(v).env && final(v).releasing == old(v).releasing
            && final(v).note == old(v).note && final(v).freq == old(v).freq && out == 0,
        old(v).line@.len() >= 2 ==> {
            &&& final(v).line@ == old(v).line@.update(
                old(v).dpos as int,
                pluck_filtered_spec(p, *old(v)) as i64,
            )
            &&& final(v).dpos == (old(v).dpos + 1) % (old(v).line@.len() as int)
            &&& final(v).prev == old(v).line@[old(v).dpos as int]
            &&& final(v).active == old(v).active
            &&& final(v).env == old(v).env
            &&& final(v).releasing == old(v).releasing
            &&& final(v).note == old(v).note
            &&& final(v).freq == old(v).freq
            &&& final(v).phase == old(v).phase
            &&& final(v).phase2 == old(v).phase2
            &&& final(v).filter_lp == old(v).filter_lp
            &&& final(v).filter_bp == old(v).filter_bp
            &&& final(v).rng == old(v).rng
            &&& out == fx_mul_spec(
                fx_mul_spec(pluck_filtered_spec(p, *old(v)), g as int),
                26214,
            )
        },
        -VOICE_OUT_MAX <= out <= VOICE_OUT_MAX,
{
    let len = v.line.len();
    if len < 2 {
        v.active = false;
        return 0;
    }
    let cur = v.line[v.dpos];
    let avg = div_trunc(cur + v.prev, 2);
    proof {
        lemma_fx_mul_contract(avg as int, p@[1] as int);
    }
    let filtered = fx_mul(p[1], avg);
    proof {
        lemma_fx_mul_contract(filtered as int, g as int);
        lemma_fx_mul_contract(fx_mul_spec(filtered as int, g as int), 26214);
    }
    let out = fx_mul(fx_mul(filtered, g), 26214);
    v.prev = cur;
    v.line[v.dpos] = filtered;
    v.dpos = (v.dpos + 1) % len;
    out
}

/// Filtered white noise: the generator steps and drives the state-variable
/// filter, whose lowpass tap is emitted.
fn dsp_noise(p: [i64; 4], v: &mut SynthVoice, g: i64) -> (out: i64)
    requires
        old(v).inv(),
        params_inv(EngineKind::Noise, p),
        0 <= g <= FX_ONE,
    ensures
        final(v).inv(),
        *final(v) == (SynthVoice {
            rng: lcg_next_spec(old(v).rng),
            filter_lp: noise_lp_next_spec(p, *old(v)) as i64,
            filter_bp: noise_bp_next_spec(p, *old(v)) as i64,
            ..*old(v)
        }),
        out == fx_mul_spec(fx_mul_spec(noise_lp_next_spec(p, *old(v)), g as int), 19661),
        -VOICE_OUT_MAX <= out <= VOICE_OUT_MAX,
{
    let ns = lcg_next(v.rng);
    let noise = noise_sample(ns);
    proof {
        crate::fx::lemma_mul_fits(p@[0] as int, p@[0] as int, FX_ONE as int, FX_ONE as int);
        lemma_fx_mul_contract(p@[0] as int, p@[0] as int);
        crate::fx::lemma_mul_fits(
            fx_mul_spec(p@[0] as int, p@[0] as int),
            64881,
            FX_ONE as int,
            64881,
        );
    }
    let f = clamp_i64(fx_mul(fx_mul(p[0], p[0]), 64881), 66, 64881);
    let q = FX_ONE - p[1];
    proof {
        lemma_fx_mul_contract(v.filter_bp as int, f as int);
        lemma_fx_mul_contract(v.filter_bp as int, q as int);
        crate::fx::lemma_mul_fits(f as int, v.filter_bp as int, FX_ONE as int, FSTATE_MAX as int);
        crate::fx::lemma_mul_fits(q as int, v.filter_bp as int, FX_ONE as int, FSTATE_MAX as int);
    }
    let lp = clamp_i64(v.filter_lp + fx_mul(f, v.filter_bp), -FSTATE_MAX, FSTATE_MAX);
    let hp = noise - lp - fx_mul(q, v.filter_bp);
    proof {
        lemma_fx_mul_contract(hp as int, f as int);
        crate::fx::lemma_mul_fits(
            f as int,
            hp as int,
            FX_ONE as int,
            2 * FSTATE_MAX + FX_ONE as int,
        );
    }
    let bp = clamp_i64(v.filter_bp + fx_mul(f, hp), -FSTATE_MAX, FSTATE_MAX);
    proof {
        lemma_fx_mul_contract(lp as int, g as int);
        lemma_fx_mul_contract(fx_mul_spec(lp as int, g as int), 19661);
        crate::fx::lemma_mul_fits(lp as int, g as int, FSTATE_MAX as int, FX_ONE as int);
    }
    let out = fx_mul(fx_mul(lp, g), 19661);
    v.rng = ns;
    v.filter_lp = lp;
    v.filter_bp = bp;
    out
}


/// The frequency of a MIDI note, fixed-point Hz: twelve equal-tempered base
/// frequencies doubled once per octave.
pub open spec fn midi_base_spec(k: int) -> int {
    if k == 0 {
        535809
    } else if k == 1 {
        567671
    } else if k == 2 {
        601427
    } else if k == 3 {
        637188
    } else if k == 4 {
        675077
    } else if k == 5 {
        715219
    } else if k == 6 {
        757749
    } else if k == 7 {
        802807
    } else if k == 8 {
        850546
    } else if k == 9 {
        901120
    } else if k == 10 {
        954717
    } else {
        1011487
    }
}

pub open spec fn octave_mul_spec(o: int) -> int {
    if o <= 0 {
        1
    } else if o == 1 {
        2
    } else if o == 2 {
        4
    } else if o == 3 {
        8
    } else if o == 4 {
        16
    } else if o == 5 {
        32
    } else if o == 6 {
        64
    } else if o == 7 {
        128
    } else if o == 8 {
        256
    } else if o == 9 {
        512
    } else {
        1024
    }
}

pub open spec fn midi_freq_spec(note: u8) -> int {
    midi_base_spec((note as int) % 12) * octave_mul_spec((note as int) / 12)
}

pub fn midi_to_freq(note: u8) -> (r: i64)
    ensures
        r == midi_freq_spec(note),
        0 < r <= MAX_NOTE_FREQ,
{
    let k = note % 12;
    let o = note / 12;
    let base: i64 = if k == 0 {
        535809
    } else if k == 1 {
        567671
    } else if k == 2 {
        601427
    } else if k == 3 {
        637188
    } else if k == 4 {
        675077
    } else if k == 5 {
        715219
    } else if k == 6 {
        757749
    } else if k == 7 {
        802807
    } else if k == 8 {
        850546
    } else if k == 9 {
        901120
    } else if k == 10 {
        954717
    } else {
        1011487
    };
    let mul: i64 = if o == 0 {
        1
    } else if o == 1 {
        2
    } else if o == 2 {
        4
    } else if o == 3 {
        8
    } else if o == 4 {
        16
    } else if o == 5 {
        32
    } else if o == 6 {
        64
    } else if o == 7 {
        128
    } else if o == 8 {
        256
    } else if o == 9 {
        512
    } else {
        1024
    };
    proof {
        vstd::arithmetic::mul::lemma_mul_upper_bound(base as int, 1011487, mul as int, 1024);
        vstd::arithmetic::mul::lemma_mul_strictly_positive(base as int, mul as int);
    }
    base * mul
}

/// The delay-line length of a plucked note: one period of its frequency,
/// kept within the line size limits.
pub open spec fn pluck_len_spec(freq: int) -> int {
    clamp_spec(2_890_137_600int / freq, 2, MAX_LINE as int)
}

/// The noise generator state after `i` steps from `seed`.
pub open spec fn rng_at(seed: u32, i: int) -> u32
    decreases i,
{
    if i <= 0 {
        seed
    } else {
        lcg_next_spec(rng_at(seed, i - 1))
    }
}

/// The initial pluck excitation: brightness-scaled white noise.
pub open spec fn pluck_burst_entry(seed: u32, brightness: int, i: int) -> int {
    fx_mul_spec(noise_of(rng_at(seed, i + 1)), brightness)
}

/// `i` is the slot `note_on` takes when some slot is free: the first one.
pub open spec fn slot_is_first_free(s: Seq<SynthVoice>, i: int) -> bool {
    &&& 0 <= i < s.len()
    &&& !s[i].active
    &&& forall|j: int| 0 <= j < i ==> (#[trigger] s[j]).active
}

pub open spec fn pool_has_free(s: Seq<SynthVoice>) -> bool {
    exists|i: int| 0 <= i < s.len() && !(#[trigger] s[i]).active
}

/// What `note_on` leaves in the slot it takes.
pub open spec fn fresh_voice_scalars(
    kind: EngineKind,
    note: u8,
    v: SynthVoice,
) -> bool {
    &&& v.active
    &&& !v.releasing
    &&& v.note == note
    &&& v.env == if kind == EngineKind::Plucked {
        ENV_ONE as int
    } else {
        0
    }
    &&& v.freq == midi_freq_spec(note)
    &&& v.phase == 0
    &&& v.phase2 == 0
    &&& v.filter_lp == 0
    &&& v.filter_bp == 0
    &&& v.prev == 0
    &&& v.rng == if kind == EngineKind::Noise {
        ((note as int) * 1664525 + 1013904223) as u32
    } else {
        12345u32
    }
    &&& v.dpos == 0
}

/// The summed contribution of the first `k` voices.
pub open spec fn synth_sum(kind: EngineKind, p: [i64; 4], s: Seq<SynthVoice>, k: int) -> int
    decreases k,
{
    if k <= 0 {
        0
    } else {
        synth_sum(kind, p, s, k - 1) + voice_out_spec(kind, p, s[k - 1])
    }
}

/// A polyphonic engine: one of the closed set of kinds, eight voices, and
/// four clamped parameters.
pub struct SynthEngine {
    pub kind: EngineKind,
    pub voices: Vec<SynthVoice>,
    pub params: [i64; 4],
}

/// The parameters each kind starts with.
pub open spec fn default_params_spec(kind: EngineKind) -> Seq<i64> {
    match kind {
        EngineKind::Sine => seq![0i64, 0i64, 655i64, 19661i64],
        EngineKind::Saw => seq![32768i64, 19661i64, 655i64, 32768i64],
        EngineKind::Fm => seq![131072i64, 98304i64, 655i64, 52429i64],
        EngineKind::Plucked => seq![32768i64, 65274i64, 66i64, 131072i64],
        EngineKind::Noise => seq![26214i64, 19661i64, 66i64, 13107i64],
    }
}

impl SynthEngine {
    pub open spec fn inv(self) -> bool {
        &&& self.voices@.len() == MAX_VOICES
        &&& forall|i: int| 0 <= i < MAX_VOICES ==> (#[trigger] self.voices@[i]).inv()
        &&& params_inv(self.kind, self.params)
    }

    pub fn new(kind: EngineKind) -> (e: SynthEngine)
        ensures
            e.inv(),
            e.kind == kind,
            e.params@ == default_params_spec(kind),
            forall|i: int| 0 <= i < MAX_VOICES ==> !(#[trigger] e.voices@[i]).active,
    {
        let mut voices: Vec<SynthVoice> = Vec::new();
        let mut k: usize = 0;
        while k < MAX_VOICES
            invariant
                k <= MAX_VOICES,
                voices@.len() == k,
                forall|i: int| 0 <= i < k ==> (#[trigger] voices@[i]).inv(),
                forall|i: int| 0 <= i < k ==> !(#[trigger] voices@[i]).active,
            decreases MAX_VOICES - k,
        {
            voices.push(
                SynthVoice {
                    active: false,
                    releasing: false,
                    note: 0,
                    env: 0,
                    freq: 0,
                    phase: 0,
                    phase2: 0,
                    filter_lp: 0,
                    filter_bp: 0,
                    prev: 0,
                    rng: 12345,
                    line: Vec::new(),
                    dpos: 0,
                },
            );
            k = k + 1;
        }
        let params: [i64; 4] = match kind {
            EngineKind::Sine => [0, 0, 655, 19661],
            EngineKind::Saw => [32768, 19661, 655, 32768],
            EngineKind::Fm => [131072, 98304, 655, 52429],
            EngineKind::Plucked => [32768, 65274, 66, 131072],
            EngineKind::Noise => [26214, 19661, 66, 13107],
        };
        SynthEngine { kind, voices, params }
    }

    pub fn name(&self) -> (r: &'static str)
        ensures
            self.kind == EngineKind::Sine ==> r@ == "SINE"@,
            self.kind == EngineKind::Saw ==> r@ == "SAW"@,
            self.kind == EngineKind::Fm ==> r@ == "FM"@,
            self.kind == EngineKind::Plucked ==> r@ == "STRING"@,
            self.kind == EngineKind::Noise ==> r@ == "NOISE"@,
    {
        match self.kind {
            EngineKind::Sine => "SINE",
            EngineKind::Saw => "SAW",
            EngineKind::Fm => "FM",
            EngineKind::Plucked => "STRING",
            EngineKind::Noise => "NOISE",
        }
    }

    pub fn param_count(&self) -> (r: usize)
        ensures
            r == 4,
    {
        4
    }

    pub fn param_name(&self, index: usize) -> (r: &'static str)
        ensures
            index >= 4 ==> r@ == ""@,
            index == 2 ==> r@ == "ATTACK"@,
            index == 3 ==> r@ == "DECAY"@,
    {
        match self.kind {
            EngineKind::Sine => {
                match index {
                    0 => "DETUNE",
                    1 => "--",
                    2 => "ATTACK",
                    3 => "DECAY",
                    _ => "",
                }
            }
            EngineKind::Saw => {
                match index {
                    0 => "CUTOFF",
                    1 => "RESO",
                    2 => "ATTACK",
                    3 => "DECAY",
                    _ => "",
                }
            }
            EngineKind::Fm => {
                match index {
                    0 => "RATIO",
                    1 => "MOD IX",
                    2 => "ATTACK",
                    3 => "DECAY",
                    _ => "",
                }
            }
            EngineKind::Plucked => {
                match index {
                    0 => "BRIGHT",
                    1 => "DAMP",
                    2 => "ATTACK",
                    3 => "DECAY",
                    _ => "",
                }
            }
            EngineKind::Noise => {
                match index {
                    0 => "CUTOFF",
                    1 => "RESO",
                    2 => "ATTACK",
                    3 => "DECAY",
                    _ => "",
                }
            }
        }
    }

    /// The value a parameter update stores: always clamped into the kind's
    /// declared range, never rejected.
    pub open spec fn set_param_value_spec(kind: EngineKind, index: int, value: int) -> int {
        if index == 2 {
            if kind == EngineKind::Plucked {
                clamp_spec(value, 66, 6554)
            } else {
                clamp_spec(value, 66, 131072)
            }
        } else if index == 3 {
            if kind == EngineKind::Plucked {
                clamp_spec(value, 6554, 655360)
            } else {
                clamp_spec(value, 655, 327680)
            }
        } else if index == 0 {
            match kind {
                EngineKind::Sine => 0,
                EngineKind::Saw => clamp_spec(value, 655, FX_ONE as int),
                EngineKind::Fm => clamp_spec(
                    ((value * 8 + 32768) / (FX_ONE as int)) * (FX_ONE as int),
                    FX_ONE as int,
                    8 * FX_ONE as int,
                ),
                EngineKind::Plucked => clamp_spec(value, 6554, FX_ONE as int),
                EngineKind::Noise => clamp_spec(value, 655, FX_ONE as int),
            }
        } else {
            match kind {
                EngineKind::Sine => 0,
                EngineKind::Saw => clamp_spec(value, 0, 62259),
                EngineKind::Fm => 5 * clamp_spec(value, 0, FX_ONE as int),
                EngineKind::Plucked => 64881 + fx_mul_spec(clamp_spec(value, 0, FX_ONE as int), 590),
                EngineKind::Noise => clamp_spec(value, 0, 62259),
            }
        }
    }

    /// Stores one parameter, clamped into range; indices past the last
    /// parameter and the sine's unused slots are ignored.
    pub fn set_param(&mut self, index: usize, value: i64)
        requires
            old(self).inv(),
            -0x1_0000_0000 <= value <= 0x1_0000_0000,
        ensures
            final(self).inv(),
            final(self).kind == old(self).kind,
            final(self).voices@ == old(self).voices@,
            index < 4 && !(old(self).kind == EngineKind::Sine && index <= 1)
                ==> final(self).params@ == old(self).params@.update(
                index as int,
                Self::set_param_value_spec(old(self).kind, index as int, value as int) as i64,
            ),
            index >= 4 || (old(self).kind == EngineKind::Sine && index <= 1) ==> final(self).params@
                == old(self).params@,
    {
        if index >= 4 {
            return ;
        }
        if index == 2 {
            let v = if matches!(self.kind, EngineKind::Plucked) {
                clamp_i64(value, 66, 6554)
            } else {
                clamp_i64(value, 66, 131072)
            };
            self.params[2] = v;
            return ;
        }
        if index == 3 {
            let v = if matches!(self.kind, EngineKind::Plucked) {
                clamp_i64(value, 6554, 655360)
            } else {
                clamp_i64(value, 655, 327680)
            };
            self.params[3] = v;
            return ;
        }
        if index == 0 {
            match self.kind {
                EngineKind::Sine => {}
                EngineKind::Saw => {
                    let v = clamp_i64(value, 655, FX_ONE);
                    self.params[0] = v;
                }
                EngineKind::Fm => {
                    let steps = if value * 8 + 32768 >= 0 {
                        div_pos(value * 8 + 32768, FX_ONE)
                    } else {
                        0
                    };
                    let snapped = if steps > 8 {
                        8 * FX_ONE
                    } else if steps < 1 {
                        FX_ONE
                    } else {
                        steps * FX_ONE
                    };
                    proof {
                        if 0 <= (value as int) * 8 + 32768 {
                            assert(Self::set_param_value_spec(
                                EngineKind::Fm,
                                0,
                                value as int,
                            ) == snapped as int);
                        }
                    }
                    self.params[0] = snapped;
                }
                EngineKind::Plucked => {
                    let v = clamp_i64(value, 6554, FX_ONE);
                    self.params[0] = v;
                }
                EngineKind::Noise => {
                    let v = clamp_i64(value, 655, FX_ONE);
                    self.params[0] = v;
                }
            }
            return ;
        }
        match self.kind {
            EngineKind::Sine => {}
            EngineKind::Saw => {
                let v = clamp_i64(value, 0, 62259);
                self.params[1] = v;
            }
            EngineKind::Fm => {
                let v = 5 * clamp_i64(value, 0, FX_ONE);
                self.params[1] = v;
            }
            EngineKind::Plucked => {
                let c = clamp_i64(value, 0, FX_ONE);
                let v = 64881 + fx_mul(c, 590);
                proof {
                    lemma_fx_mul_contract(c as int, 590);
                }
                self.params[1] = v;
            }
            EngineKind::Noise => {
                let v = clamp_i64(value, 0, 62259);
                self.params[1] = v;
            }
        }
    }

    /// Starts a note in the first free slot, stealing slot 0 when every
    /// slot is busy; the slot is reinitialized for this engine's kind and,
    /// for the plucked string, seeded with a brightness-scaled noise burst.
    /// The velocity is accepted for interface parity and ignored.
    pub fn note_on(&mut self, note: u8, velocity: i64) -> (idx: usize)
        requires
            old(self).inv(),
        ensures
            final(self).inv(),
            final(self).kind == old(self).kind,
            final(self).params == old(self).params,
            final(self).voices@.len() == MAX_VOICES,
            idx < MAX_VOICES,
            pool_has_free(old(self).voices@) ==> slot_is_first_free(old(self).voices@, idx as int),
            !pool_has_free(old(self).voices@) ==> idx == 0,
            fresh_voice_scalars(old(self).kind, note, final(self).voices@[idx as int]),
            forall|j: int|
                0 <= j < MAX_VOICES && j != idx ==> #[trigger] final(self).voices@[j] == old(self).voices@[j],
            old(self).kind == EngineKind::Plucked ==> {
                &&& final(self).voices@[idx as int].line@.len() == pluck_len_spec(
                    midi_freq_spec(note),
                )
                &&& forall|i: int|
                    0 <= i < final(self).voices@[idx as int].line@.len()
                        ==> #[trigger] final(self).voices@[idx as int].line@[i]
                        == pluck_burst_entry(
                        ((note as int) * 1664525 + 1013904223) as u32,
                        old(self).params@[0] as int,
                        i,
                    )
            },
            old(self).kind != EngineKind::Plucked ==> final(self).voices@[idx as int].line@.len()
                == 0,
    {
        let n = self.voices.len();
        let mut idx: usize = 0;
        let mut found = false;
        let mut k: usize = 0;
        while k < n
            invariant
                self == old(self),
                old(self).inv(),
                n == MAX_VOICES,
                k <= n,
                !found ==> forall|j: int| 0 <= j < k ==> (#[trigger] self.voices@[j]).active,
                !found ==> idx == 0,
                found ==> slot_is_first_free(self.voices@, idx as int),
                idx < n,
            decreases n - k,
        {
            if !found && !self.voices[k].active {
                idx = k;
                found = true;
            }
            k = k + 1;
        }
        let freq = midi_to_freq(note);
        let seed: u32 = (note as u32) * 1664525 + 1013904223;
        let mut line: Vec<i64> = Vec::new();
        let is_pluck = matches!(self.kind, EngineKind::Plucked);
        if is_pluck {
            proof {
                vstd::arithmetic::div_mod::lemma_div_pos_is_pos(2_890_137_600, freq as int);
            }
            let raw_len = div_pos(2_890_137_600, freq);
            let len = if raw_len < 2 {
                2
            } else if raw_len > MAX_LINE as i64 {
                MAX_LINE
            } else {
                raw_len as usize
            };
            let brightness = self.params[0];
            let mut state = seed;
            let mut i: usize = 0;
            while i < len
                invariant
                    line@.len() == i,
                    i <= len,
                    0 <= brightness <= FX_ONE,
                    state == rng_at(seed, i as int),
                    forall|j: int|
                        0 <= j < i ==> #[trigger] line@[j] == pluck_burst_entry(
                            seed,
                            brightness as int,
                            j,
                        ),
                    forall|j: int| 0 <= j < i ==> -FX_ONE <= #[trigger] line@[j] <= FX_ONE,
                decreases len - i,
            {
                state = lcg_next(state);
                let noise = noise_sample(state);
                proof {
                    lemma_fx_mul_contract(noise as int, brightness as int);
                }
                let e = fx_mul(noise, brightness);
                line.push(e);
                i = i + 1;
            }
        }
        let env0: i64 = if is_pluck {
            ENV_ONE
        } else {
            0
        };
        let rng0: u32 = if matches!(self.kind, EngineKind::Noise) {
            seed
        } else {
            12345
        };
        self.voices[idx] = SynthVoice {
            active: true,
            releasing: false,
            note,
            env: env0,
            freq,
            phase: 0,
            phase2: 0,
            filter_lp: 0,
            filter_bp: 0,
            prev: 0,
            rng: rng0,
            line,
            dpos: 0,
        };
        idx
    }

    /// Marks every voice holding the note as releasing.
    pub fn note_off(&mut self, note: u8)
        requires
            old(self).inv(),
        ensures
            final(self).inv(),
            final(self).kind == old(self).kind,
            final(self).params == old(self).params,
            final(self).voices@.len() == MAX_VOICES,
            forall|i: int|
                0 <= i < MAX_VOICES ==> {
                    let a = old(self).voices@[i];
                    let b = #[trigger] final(self).voices@[i];
                    &&& b.releasing == (a.releasing || (a.active && a.note == note))
                    &&& b.active == a.active
                    &&& b.note == a.note
                    &&& b.env == a.env
                    &&& b.freq == a.freq
                    &&& b.phase == a.phase
                    &&& b.phase2 == a.phase2
                    &&& b.filter_lp == a.filter_lp
                    &&& b.filter_bp == a.filter_bp
                    &&& b.prev == a.prev
                    &&& b.rng == a.rng
                    &&& b.line@ == a.line@
                    &&& b.dpos == a.dpos
                },
    {
        let n = self.voices.len();
        let mut k: usize = 0;
        while k < n
            invariant
                old(self).inv(),
                n == MAX_VOICES,
                self.voices@.len() == n,
                self.kind == old(self).kind,
                self.params == old(self).params,
                k <= n,
                forall|i: int|
                    0 <= i < k ==> {
                        let a = old(self).voices@[i];
                        let b = #[trigger] self.voices@[i];
                        &&& b.releasing == (a.releasing || (a.active && a.note == note))
                        &&& b.active == a.active
                        &&& b.note == a.note
                        &&& b.env == a.env
                        &&& b.freq == a.freq
                        &&& b.phase == a.phase
                        &&& b.phase2 == a.phase2
                        &&& b.filter_lp == a.filter_lp
                        &&& b.filter_bp == a.filter_bp
                        &&& b.prev == a.prev
                        &&& b.rng == a.rng
                        &&& b.line@ == a.line@
                        &&& b.dpos == a.dpos
                    },
                forall|i: int| k <= i < n ==> #[trigger] self.voices@[i] == old(self).voices@[i],
            decreases n - k,
        {
            if self.voices[k].active && self.voices[k].note == note {
                self.voices[k].releasing = true;
            }
            k = k + 1;
        }
    }

    /// Emits one engine sample: every voice steps once and their
    /// contributions are summed.
    pub fn tick(&mut self) -> (out: i64)
        requires
            old(self).inv(),
        ensures
            final(self).inv(),
            final(self).kind == old(self).kind,
            final(self).params == old(self).params,
            final(self).voices@.len() == MAX_VOICES,
            forall|i: int|
                0 <= i < MAX_VOICES ==> voice_stepped(
                    old(self).kind,
                    old(self).params,
                    old(self).voices@[i],
                    #[trigger] final(self).voices@[i],
                ),
            out == synth_sum(old(self).kind, old(self).params, old(self).voices@, MAX_VOICES as int),
            -SYNTH_OUT_MAX <= out <= SYNTH_OUT_MAX,
    {
        let n = self.voices.len();
        let mut sum: i64 = 0;
        let mut k: usize = 0;
        while k < n
            invariant
                old(self).inv(),
                n == MAX_VOICES,
                self.voices@.len() == n,
                self.kind == old(self).kind,
                self.params == old(self).params,
                k <= n,
                forall|i: int| 0 <= i < k ==> (#[trigger] self.voices@[i]).inv(),
                forall|i: int|
                    0 <= i < k ==> voice_stepped(
                        old(self).kind,
                        old(self).params,
                        old(self).voices@[i],
                        #[trigger] self.voices@[i],
                    ),
                forall|i: int| k <= i < n ==> #[trigger] self.voices@[i] == old(self).voices@[i],
                sum == synth_sum(old(self).kind, old(self).params, old(self).voices@, k as int),
                -(k as int) * VOICE_OUT_MAX <= sum <= (k as int) * VOICE_OUT_MAX,
            decreases n - k,
        {
            let kind = self.kind;
            let p = self.params;
            let v = step_voice(kind, p, &mut self.voices[k]);
            proof {
                assert((k as int + 1) * VOICE_OUT_MAX == (k as int) * VOICE_OUT_MAX
                    + VOICE_OUT_MAX) by (nonlinear_arith);
            }
            sum = sum + v;
            k = k + 1;
        }
        sum
    }
}

/// The engine a selection index stands for; anything past the last engine
/// falls back to the sine, so no index is ever out of range.
pub fn create_engine(index: usize) -> (e: SynthEngine)
    ensures
        e.inv(),
        e.kind == (if index == 1 {
            EngineKind::Saw
        } else if index == 2 {
            EngineKind::Fm
        } else if index == 3 {
            EngineKind::Plucked
        } else if index == 4 {
            EngineKind::Noise
        } else {
            EngineKind::Sine
        }),
        forall|i: int| 0 <= i < MAX_VOICES ==> !(#[trigger] e.voices@[i]).active,
{
    match index {
        1 => SynthEngine::new(EngineKind::Saw),
        2 => SynthEngine::new(EngineKind::Fm),
        3 => SynthEngine::new(EngineKind::Plucked),
        4 => SynthEngine::new(EngineKind::Noise),
        _ => SynthEngine::new(EngineKind::Sine),
    }
}

/// One step of engine selection: cycling wraps modulo the engine count in
/// both directions and always yields a valid index.
pub fn cycle_engine(current: usize, forward: bool) -> (r: usize)
    ensures
        r < ENGINE_COUNT,
        forward ==> r == (current + 1) % (ENGINE_COUNT as int),
        !forward ==> r == (current + ENGINE_COUNT - 1) % (ENGINE_COUNT as int),
{
    let c = current % ENGINE_COUNT;
    proof {
        vstd::arithmetic::div_mod::lemma_add_mod_noop(
            current as int,
            1,
            ENGINE_COUNT as int,
        );
        vstd::arithmetic::div_mod::lemma_add_mod_noop(
            current as int,
            ENGINE_COUNT as int - 1,
            ENGINE_COUNT as int,
        );
        vstd::arithmetic::div_mod::lemma_mod_twice(current as int, ENGINE_COUNT as int);
        vstd::arithmetic::div_mod::lemma_small_mod(1nat, ENGINE_COUNT as nat);
        vstd::arithmetic::div_mod::lemma_small_mod(
            (ENGINE_COUNT - 1) as nat,
            ENGINE_COUNT as nat,
        );
    }
    if forward {
        (c + 1) % ENGINE_COUNT
    } else {
        (c + (ENGINE_COUNT - 1)) % ENGINE_COUNT
    }
}

} // verus!
