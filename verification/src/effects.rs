//! Per-track effects over a closed variant set: feedback delay, four-comb
//! reverb, state-variable filter, drive-normalized saturation, and a
//! modulated-delay chorus. A chain applies its effects in slot order,
//! skipping bypassed ones. Samples are processed one at a time; outputs are
//! guarded into the chain's admitted sample range.

use vstd::prelude::*;

use crate::constants::{FX_ONE, SAMPLE_RATE_SAMPLES};
use crate::fx::{
    clamp_i64, clamp_spec, div_pos, fx_mul, fx_mul_spec, lemma_fx_mul_contract, osc_wave,
    osc_wave_spec, soft_sat, soft_sat_spec,
};

verus! {

/// Largest sample magnitude the chain carries between effects.
pub const EFFECT_MAX: i64 = 0x8000_0000;

/// Largest value a feedback line may hold.
pub const LINE_MAX: i64 = 0x10_0000_0000;

/// Filter state guard.
pub const EFF_STATE_MAX: i64 = 0x10_0000_0000;

/// Chorus LFO phase resolution: 1024 sub-units per fixed-point phase unit.
pub const LFO_ONE: i64 = 67_108_864;

pub const DELAY_LINE_LEN: usize = 88_200;

pub const CHORUS_LINE_LEN: usize = 44_100;

pub const COMB_LEN_1: usize = 1557;

pub const COMB_LEN_2: usize = 1617;

pub const COMB_LEN_3: usize = 1491;

pub const COMB_LEN_4: usize = 1422;

#[derive(Clone, Copy, PartialEq, Eq, Structural, Debug)]
pub enum EffectKind {
    Delay,
    Reverb,
    Filter,
    Distortion,
    Chorus,
}

#[derive(Clone, Copy, PartialEq, Eq, Structural, Debug)]
pub enum FilterMode {
    LowPass,
    HighPass,
    BandPass,
}

/// One effect instance: its kind, up to three clamped parameters, a bypass
/// flag, and whatever delay-line or filter state its kind needs.
pub struct Effect {
    pub kind: EffectKind,
    pub params: [i64; 3],
    pub bypassed: bool,
    pub mode: FilterMode,
    /// Main delay line (delay, chorus) or first comb (reverb).
    pub l1: Vec<i64>,
    pub l2: Vec<i64>,
    pub l3: Vec<i64>,
    pub l4: Vec<i64>,
    pub p1: usize,
    pub p2: usize,
    pub p3: usize,
    pub p4: usize,
    pub lp: i64,
    pub bp: i64,
    pub lfo: i64,
}

pub open spec fn line_ok(l: Seq<i64>, p: int, len: int) -> bool {
    &&& l.len() == len
    &&& 0 <= p < len
    &&& forall|i: int| 0 <= i < len ==> -LINE_MAX <= #[trigger] l[i] <= LINE_MAX
}

/// Parameter ranges per kind.
pub open spec fn effect_params_inv(kind: EffectKind, params: [i64; 3]) -> bool {
    match kind {
        EffectKind::Delay => 655 <= params@[0] <= 131_072 && 0 <= params@[1] <= 58_982 && 0
            <= params@[2] <= FX_ONE,
        EffectKind::Reverb => 0 <= params@[0] <= FX_ONE && 6554 <= params@[1] <= 62_259 && params@[2]
            == 0,
        EffectKind::Filter => 655 <= params@[0] <= FX_ONE && 0 <= params@[1] <= 62_259 && params@[2]
            == 0,
        EffectKind::Distortion => FX_ONE <= params@[0] <= 10 * FX_ONE && 0 <= params@[1] <= FX_ONE
            && params@[2] == 0,
        EffectKind::Chorus => 6554 <= params@[0] <= 327_680 && 66 <= params@[1] <= 1311 && 0
            <= params@[2] <= FX_ONE,
    }
}

impl Effect {
    pub open spec fn inv(self) -> bool {
        &&& effect_params_inv(self.kind, self.params)
        &&& -EFF_STATE_MAX <= self.lp <= EFF_STATE_MAX
        &&& -EFF_STATE_MAX <= self.bp <= EFF_STATE_MAX
        &&& 0 <= self.lfo < LFO_ONE
        &&& match self.kind {
            EffectKind::Delay => line_ok(self.l1@, self.p1 as int, DELAY_LINE_LEN as int),
            EffectKind::Reverb => {
                &&& line_ok(self.l1@, self.p1 as int, COMB_LEN_1 as int)
                &&& line_ok(self.l2@, self.p2 as int, COMB_LEN_2 as int)
                &&& line_ok(self.l3@, self.p3 as int, COMB_LEN_3 as int)
                &&& line_ok(self.l4@, self.p4 as int, COMB_LEN_4 as int)
            },
            EffectKind::Filter => true,
            EffectKind::Distortion => true,
            EffectKind::Chorus => line_ok(self.l1@, self.p1 as int, CHORUS_LINE_LEN as int),
        }
    }
}

/// The value `set_param` stores for this kind and index, clamped into the
/// declared range; `None` where the kind has no parameter at that index.
pub open spec fn param_value_spec(kind: EffectKind, index: int, value: int) -> Option<int> {
    match kind {
        EffectKind::Delay => if index == 0 {
            Some(clamp_spec(value, 655, 131_072))
        } else if index == 1 {
            Some(clamp_spec(value, 0, 58_982))
        } else if index == 2 {
            Some(clamp_spec(value, 0, FX_ONE as int))
        } else {
            None
        },
        EffectKind::Reverb => if index == 0 {
            Some(clamp_spec(value, 0, FX_ONE as int))
        } else if index == 1 {
            Some(clamp_spec(value, 6554, 62_259))
        } else {
            None
        },
        EffectKind::Filter => if index == 0 {
            Some(clamp_spec(value, 655, FX_ONE as int))
        } else if index == 1 {
            Some(clamp_spec(value, 0, 62_259))
        } else {
            None
        },
        EffectKind::Distortion => if index == 0 {
            Some(clamp_spec(value, FX_ONE as int, 10 * FX_ONE as int))
        } else if index == 1 {
            Some(clamp_spec(value, 0, FX_ONE as int))
        } else {
            None
        },
        EffectKind::Chorus => if index == 0 {
            Some(clamp_spec(value, 6554, 327_680))
        } else if index == 1 {
            Some(clamp_spec(value, 66, 1311))
        } else if index == 2 {
            Some(clamp_spec(value, 0, FX_ONE as int))
        } else {
            None
        },
    }
}

/// How `set_param` transforms an effect: the addressed parameter is stored
/// clamped — the filter's third parameter instead selects its mode by
/// thresholds — and everything else, state lines included, stays as it was.
pub open spec fn param_applied(a: Effect, b: Effect, index: int, value: int) -> bool {
    &&& b.kind == a.kind
    &&& b.bypassed == a.bypassed
    &&& b.l1@ == a.l1@ && b.l2@ == a.l2@ && b.l3@ == a.l3@ && b.l4@ == a.l4@
    &&& b.p1 == a.p1 && b.p2 == a.p2 && b.p3 == a.p3 && b.p4 == a.p4
    &&& b.lp == a.lp && b.bp == a.bp && b.lfo == a.lfo
    &&& if a.kind == EffectKind::Filter && index == 2 {
        &&& b.params == a.params
        &&& b.mode == (if value < 21627 {
            FilterMode::LowPass
        } else if value < 43254 {
            FilterMode::HighPass
        } else {
            FilterMode::BandPass
        })
    } else {
        &&& b.mode == a.mode
        &&& match param_value_spec(a.kind, index, value) {
            Some(v) => b.params@ == a.params@.update(index, v as i64),
            None => b.params == a.params,
        }
    }
}

/// The delay tap length the delay effect reads at, in samples.
pub open spec fn delay_taps_spec(time: int) -> int {
    clamp_spec(time * (SAMPLE_RATE_SAMPLES as int) / (FX_ONE as int), 1, DELAY_LINE_LEN - 1)
}

/// The chorus read offset for the current LFO position, in samples.
pub open spec fn chorus_taps_spec(depth: int, lfo: int) -> int {
    let base = depth * (SAMPLE_RATE_SAMPLES as int) / (FX_ONE as int);
    let swung = base * (FX_ONE + osc_wave_spec(lfo / 1024)) / (2 * FX_ONE as int);
    if swung < 1 {
        1
    } else {
        swung
    }
}

/// The filter coefficient from the cutoff parameter.
pub open spec fn filter_coeff_spec(cutoff: int) -> int {
    clamp_spec(fx_mul_spec(cutoff, cutoff), 66, 64881)
}

/// A wrapped ring-buffer position.
pub open spec fn ring_next(p: int, len: int) -> int {
    (p + 1) % len
}

/// What the effect emits for input `x`, as a function of its state before
/// the step; the result is guarded into the chain's sample range.
pub open spec fn effect_out(e: Effect, x: int) -> int {
    match e.kind {
        EffectKind::Delay => {
            let taps = delay_taps_spec(e.params@[0] as int);
            let rp = (e.p1 + (DELAY_LINE_LEN as int) - taps) % (DELAY_LINE_LEN as int);
            let delayed = e.l1@[rp] as int;
            clamp_spec(
                fx_mul_spec(x, FX_ONE - e.params@[2] as int) + fx_mul_spec(
                    delayed,
                    e.params@[2] as int,
                ),
                -EFFECT_MAX as int,
                EFFECT_MAX as int,
            )
        },
        EffectKind::Reverb => {
            let wet = fx_mul_spec(e.l1@[ring_next(e.p1 as int, COMB_LEN_1 as int)] as int, 16384)
                + fx_mul_spec(e.l2@[ring_next(e.p2 as int, COMB_LEN_2 as int)] as int, 16384)
                + fx_mul_spec(e.l3@[ring_next(e.p3 as int, COMB_LEN_3 as int)] as int, 16384)
                + fx_mul_spec(e.l4@[ring_next(e.p4 as int, COMB_LEN_4 as int)] as int, 16384);
            clamp_spec(
                fx_mul_spec(x, FX_ONE - e.params@[0] as int) + fx_mul_spec(
                    wet,
                    e.params@[0] as int,
                ),
                -EFFECT_MAX as int,
                EFFECT_MAX as int,
            )
        },
        EffectKind::Filter => {
            let lp2 = filter_lp_next(e, x);
            let hp = filter_hp_of(e, x);
            let bp2 = filter_bp_next(e, x);
            clamp_spec(
                match e.mode {
                    FilterMode::LowPass => lp2,
                    FilterMode::HighPass => hp,
                    FilterMode::BandPass => bp2,
                },
                -EFFECT_MAX as int,
                EFFECT_MAX as int,
            )
        },
        EffectKind::Distortion => {
            let shaped = soft_sat_spec(fx_mul_spec(x, e.params@[0] as int));
            let norm = soft_sat_spec(e.params@[0] as int);
            let driven = crate::fx::tdiv(shaped * (FX_ONE as int), norm);
            clamp_spec(
                fx_mul_spec(x, FX_ONE - e.params@[1] as int) + fx_mul_spec(
                    driven,
                    e.params@[1] as int,
                ),
                -EFFECT_MAX as int,
                EFFECT_MAX as int,
            )
        },
        EffectKind::Chorus => {
            let taps = chorus_taps_spec(e.params@[1] as int, e.lfo as int);
            let rp = (e.p1 + (CHORUS_LINE_LEN as int) - taps) % (CHORUS_LINE_LEN as int);
            let delayed = e.l1@[rp] as int;
            clamp_spec(
                fx_mul_spec(x, FX_ONE - e.params@[2] as int) + fx_mul_spec(
                    delayed,
                    e.params@[2] as int,
                ),
                -EFFECT_MAX as int,
                EFFECT_MAX as int,
            )
        },
    }
}

pub open spec fn filter_lp_next(e: Effect, x: int) -> int {
    clamp_spec(
        e.lp + fx_mul_spec(filter_coeff_spec(e.params@[0] as int), e.bp as int),
        -EFF_STATE_MAX as int,
        EFF_STATE_MAX as int,
    )
}

pub open spec fn filter_hp_of(e: Effect, x: int) -> int {
    x - filter_lp_next(e, x) - fx_mul_spec(FX_ONE - e.params@[1] as int, e.bp as int)
}

pub open spec fn filter_bp_next(e: Effect, x: int) -> int {
    clamp_spec(
        e.bp + fx_mul_spec(filter_coeff_spec(e.params@[0] as int), filter_hp_of(e, x)),
        -EFF_STATE_MAX as int,
        EFF_STATE_MAX as int,
    )
}

/// How an effect's state advances when it processes `x`.
pub open spec fn effect_stepped(a: Effect, b: Effect, x: int) -> bool {
    &&& b.kind == a.kind
    &&& b.params == a.params
    &&& b.bypassed == a.bypassed
    &&& b.mode == a.mode
    &&& match a.kind {
        EffectKind::Delay => {
            let taps = delay_taps_spec(a.params@[0] as int);
            let rp = (a.p1 + (DELAY_LINE_LEN as int) - taps) % (DELAY_LINE_LEN as int);
            let delayed = a.l1@[rp] as int;
            &&& b.l1@ == a.l1@.update(
                a.p1 as int,
                clamp_spec(
                    x + fx_mul_spec(delayed, a.params@[1] as int),
                    -LINE_MAX as int,
                    LINE_MAX as int,
                ) as i64,
            )
            &&& b.p1 == ring_next(a.p1 as int, DELAY_LINE_LEN as int)
            &&& b.l2@ == a.l2@ && b.l3@ == a.l3@ && b.l4@ == a.l4@
            &&& b.p2 == a.p2 && b.p3 == a.p3 && b.p4 == a.p4
            &&& b.lp == a.lp && b.bp == a.bp && b.lfo == a.lfo
        },
        EffectKind::Reverb => {
            &&& b.l1@ == a.l1@.update(
                a.p1 as int,
                comb_write(a.l1@, a.p1 as int, COMB_LEN_1 as int, a.params@[1] as int, x) as i64,
            )
            &&& b.l2@ == a.l2@.update(
                a.p2 as int,
                comb_write(a.l2@, a.p2 as int, COMB_LEN_2 as int, a.params@[1] as int, x) as i64,
            )
            &&& b.l3@ == a.l3@.update(
                a.p3 as int,
                comb_write(a.l3@, a.p3 as int, COMB_LEN_3 as int, a.params@[1] as int, x) as i64,
            )
            &&& b.l4@ == a.l4@.update(
                a.p4 as int,
                comb_write(a.l4@, a.p4 as int, COMB_LEN_4 as int, a.params@[1] as int, x) as i64,
            )
            &&& b.p1 == ring_next(a.p1 as int, COMB_LEN_1 as int)
            &&& b.p2 == ring_next(a.p2 as int, COMB_LEN_2 as int)
            &&& b.p3 == ring_next(a.p3 as int, COMB_LEN_3 as int)
            &&& b.p4 == ring_next(a.p4 as int, COMB_LEN_4 as int)
            &&& b.lp == a.lp && b.bp == a.bp && b.lfo == a.lfo
        },
        EffectKind::Filter => {
            &&& b.lp == filter_lp_next(a, x)
            &&& b.bp == filter_bp_next(a, x)
            &&& b.l1@ == a.l1@ && b.l2@ == a.l2@ && b.l3@ == a.l3@ && b.l4@ == a.l4@
            &&& b.p1 == a.p1 && b.p2 == a.p2 && b.p3 == a.p3 && b.p4 == a.p4
            &&& b.lfo == a.lfo
        },
        EffectKind::Distortion => {
            &&& b.l1@ == a.l1@ && b.l2@ == a.l2@ && b.l3@ == a.l3@ && b.l4@ == a.l4@
            &&& b.p1 == a.p1 && b.p2 == a.p2 && b.p3 == a.p3 && b.p4 == a.p4
            &&& b.lp == a.lp && b.bp == a.bp && b.lfo == a.lfo
        },
        EffectKind::Chorus => {
            &&& b.l1@ == a.l1@.update(
                a.p1 as int,
                clamp_spec(x, -LINE_MAX as int, LINE_MAX as int) as i64,
            )
            &&& b.p1 == ring_next(a.p1 as int, CHORUS_LINE_LEN as int)
            &&& b.lfo == chorus_lfo_next(a.params@[0] as int, a.lfo as int)
            &&& b.l2@ == a.l2@ && b.l3@ == a.l3@ && b.l4@ == a.l4@
            &&& b.p2 == a.p2 && b.p3 == a.p3 && b.p4 == a.p4
            &&& b.lp == a.lp && b.bp == a.bp
        },
    }
}

/// What a comb line absorbs: the input plus its own decayed feedback.
pub open spec fn comb_write(l: Seq<i64>, p: int, len: int, decay: int, x: int) -> int {
    clamp_spec(
        x + fx_mul_spec(l[ring_next(p, len)] as int, decay),
        -LINE_MAX as int,
        LINE_MAX as int,
    )
}

/// The chorus LFO phase after one sample.
pub open spec fn chorus_lfo_next(rate: int, lfo: int) -> int {
    let inc = rate * 1024 / (SAMPLE_RATE_SAMPLES as int);
    if lfo + inc >= LFO_ONE {
        lfo + inc - LFO_ONE
    } else {
        lfo + inc
    }
}


fn zero_line(len: usize) -> (r: Vec<i64>)
    ensures
        r@.len() == len,
        forall|i: int| 0 <= i < len ==> #[trigger] r@[i] == 0,
{
    let mut r: Vec<i64> = Vec::new();
    let mut k: usize = 0;
    while k < len
        invariant
            k <= len,
            r@.len() == k,
            forall|i: int| 0 <= i < k ==> #[trigger] r@[i] == 0,
        decreases len - k,
    {
        r.push(0);
        k = k + 1;
    }
    r
}

impl Effect {
    /// A fresh instance of the given kind at its default parameters, not
    /// bypassed, with silent lines.
    pub fn new(kind: EffectKind) -> (e: Effect)
        ensures
            e.inv(),
            e.kind == kind,
            !e.bypassed,
    {
        let params: [i64; 3] = match kind {
            EffectKind::Delay => [24576, 26214, 19661],
            EffectKind::Reverb => [19661, 39322, 0],
            EffectKind::Filter => [32768, 19661, 0],
            EffectKind::Distortion => [131072, 32768, 0],
            EffectKind::Chorus => [32768, 197, 32768],
        };
        let l1 = match kind {
            EffectKind::Delay => zero_line(DELAY_LINE_LEN),
            EffectKind::Reverb => zero_line(COMB_LEN_1),
            EffectKind::Chorus => zero_line(CHORUS_LINE_LEN),
            _ => Vec::new(),
        };
        let l2 = match kind {
            EffectKind::Reverb => zero_line(COMB_LEN_2),
            _ => Vec::new(),
        };
        let l3 = match kind {
            EffectKind::Reverb => zero_line(COMB_LEN_3),
            _ => Vec::new(),
        };
        let l4 = match kind {
            EffectKind::Reverb => zero_line(COMB_LEN_4),
            _ => Vec::new(),
        };
        Effect {
            kind,
            params,
            bypassed: false,
            mode: FilterMode::LowPass,
            l1,
            l2,
            l3,
            l4,
            p1: 0,
            p2: 0,
            p3: 0,
            p4: 0,
            lp: 0,
            bp: 0,
            lfo: 0,
        }
    }

    pub fn set_bypass(&mut self, bypass: bool)
        requires
            old(self).inv(),
        ensures
            final(self).inv(),
            final(self).bypassed == bypass,
            final(self).kind == old(self).kind,
            final(self).params == old(self).params,
    {
        self.bypassed = bypass;
    }

    pub fn is_bypassed(&self) -> (r: bool)
        ensures
            r == self.bypassed,
    {
        self.bypassed
    }

    pub fn name(&self) -> (r: &'static str)
        ensures
            self.kind == EffectKind::Delay ==> r@ == "DELAY"@,
            self.kind == EffectKind::Reverb ==> r@ == "REVERB"@,
            self.kind == EffectKind::Filter ==> r@ == "FILTER"@,
            self.kind == EffectKind::Distortion ==> r@ == "DIST"@,
            self.kind == EffectKind::Chorus ==> r@ == "CHORUS"@,
    {
        match self.kind {
            EffectKind::Delay => "DELAY",
            EffectKind::Reverb => "REVERB",
            EffectKind::Filter => "FILTER",
            EffectKind::Distortion => "DIST",
            EffectKind::Chorus => "CHORUS",
        }
    }

    pub fn param_count(&self) -> (r: usize)
        ensures
            r == match self.kind {
                EffectKind::Delay => 3int,
                EffectKind::Reverb => 2int,
                EffectKind::Filter => 3int,
                EffectKind::Distortion => 2int,
                EffectKind::Chorus => 3int,
            },
    {
        match self.kind {
            EffectKind::Delay => 3,
            EffectKind::Reverb => 2,
            EffectKind::Filter => 3,
            EffectKind::Distortion => 2,
            EffectKind::Chorus => 3,
        }
    }

    /// Stores one parameter, clamped into this kind's range; out-of-range
    /// indices are ignored. The filter's third parameter selects its mode
    /// by thresholds instead of storing a value.
    pub fn set_param(&mut self, index: usize, value: i64)
        requires
            old(self).inv(),
            -0x1_0000_0000 <= value <= 0x1_0000_0000,
        ensures
            final(self).inv(),
            param_applied(*old(self), *final(self), index as int, value as int),
    {
        match self.kind {
            EffectKind::Delay => {
                if index == 0 {
                    let v = clamp_i64(value, 655, 131_072);
                    self.params[0] = v;
                } else if index == 1 {
                    let v = clamp_i64(value, 0, 58_982);
                    self.params[1] = v;
                } else if index == 2 {
                    let v = clamp_i64(value, 0, FX_ONE);
                    self.params[2] = v;
                }
            }
            EffectKind::Reverb => {
                if index == 0 {
                    let v = clamp_i64(value, 0, FX_ONE);
                    self.params[0] = v;
                } else if index == 1 {
                    let v = clamp_i64(value, 6554, 62_259);
                    self.params[1] = v;
                }
            }
            EffectKind::Filter => {
                if index == 0 {
                    let v = clamp_i64(value, 655, FX_ONE);
                    self.params[0] = v;
                } else if index == 1 {
                    let v = clamp_i64(value, 0, 62_259);
                    self.params[1] = v;
                } else if index == 2 {
                    self.mode = if value < 21627 {
                        FilterMode::LowPass
                    } else if value < 43254 {
                        FilterMode::HighPass
                    } else {
                        FilterMode::BandPass
                    };
                }
            }
            EffectKind::Distortion => {
                if index == 0 {
                    let v = clamp_i64(value, FX_ONE, 10 * FX_ONE);
                    self.params[0] = v;
                } else if index == 1 {
                    let v = clamp_i64(value, 0, FX_ONE);
                    self.params[1] = v;
                }
            }
            EffectKind::Chorus => {
                if index == 0 {
                    let v = clamp_i64(value, 6554, 327_680);
                    self.params[0] = v;
                } else if index == 1 {
                    let v = clamp_i64(value, 66, 1311);
                    self.params[1] = v;
                } else if index == 2 {
                    let v = clamp_i64(value, 0, FX_ONE);
                    self.params[2] = v;
                }
            }
        }
    }

    /// Processes one sample through this effect, advancing its state.
    pub fn process_sample(&mut self, x: i64) -> (y: i64)
        requires
            old(self).inv(),
            -EFFECT_MAX <= x <= EFFECT_MAX,
        ensures
            final(self).inv(),
            effect_stepped(*old(self), *final(self), x as int),
            y == effect_out(*old(self), x as int),
            -EFFECT_MAX <= y <= EFFECT_MAX,
    {
        match self.kind {
            EffectKind::Delay => self.run_delay(x),
            EffectKind::Reverb => self.run_reverb(x),
            EffectKind::Filter => self.run_filter(x),
            EffectKind::Distortion => self.run_distortion(x),
            EffectKind::Chorus => self.run_chorus(x),
        }
    }

    fn run_delay(&mut self, x: i64) -> (y: i64)
        requires
            old(self).inv(),
            old(self).kind == EffectKind::Delay,
            -EFFECT_MAX <= x <= EFFECT_MAX,
        ensures
            final(self).inv(),
            effect_stepped(*old(self), *final(self), x as int),
            y == effect_out(*old(self), x as int),
            -EFFECT_MAX <= y <= EFFECT_MAX,
    {
        match self.kind {
            EffectKind::Delay => {
                proof {
                    crate::fx::lemma_mul_fits(
                        self.params@[0] as int,
                        SAMPLE_RATE_SAMPLES as int,
                        131_072,
                        SAMPLE_RATE_SAMPLES as int,
                    );
                }
                let taps_raw = div_pos(self.params[0] * (SAMPLE_RATE_SAMPLES as i64), FX_ONE);
                let taps = clamp_i64(taps_raw, 1, (DELAY_LINE_LEN - 1) as i64) as usize;
                let rp = (self.p1 + DELAY_LINE_LEN - taps) % DELAY_LINE_LEN;
                let delayed = self.l1[rp];
                proof {
                    lemma_fx_mul_contract(delayed as int, self.params@[1] as int);
                    crate::fx::lemma_mul_fits(
                        delayed as int,
                        self.params@[1] as int,
                        LINE_MAX as int,
                        FX_ONE as int,
                    );
                    lemma_fx_mul_contract(x as int, FX_ONE - self.params@[2] as int);
                    lemma_fx_mul_contract(delayed as int, self.params@[2] as int);
                    crate::fx::lemma_mul_fits(
                        x as int,
                        FX_ONE - self.params@[2] as int,
                        EFFECT_MAX as int,
                        FX_ONE as int,
                    );
                }
                let fed = clamp_i64(x + fx_mul(delayed, self.params[1]), -LINE_MAX, LINE_MAX);
                self.l1[self.p1] = fed;
                self.p1 = (self.p1 + 1) % DELAY_LINE_LEN;
                clamp_i64(
                    fx_mul(x, FX_ONE - self.params[2]) + fx_mul(delayed, self.params[2]),
                    -EFFECT_MAX,
                    EFFECT_MAX,
                )
            }
            _ => 0,
        }
    }

    #[verifier::rlimit(100)]
    fn run_reverb(&mut self, x: i64) -> (y: i64)
        requires
            old(self).inv(),
            old(self).kind == EffectKind::Reverb,
            -EFFECT_MAX <= x <= EFFECT_MAX,
        ensures
            final(self).inv(),
            effect_stepped(*old(self), *final(self), x as int),
            y == effect_out(*old(self), x as int),
            -EFFECT_MAX <= y <= EFFECT_MAX,
    {
        match self.kind {
            EffectKind::Reverb => {
                let d1 = self.l1[(self.p1 + 1) % COMB_LEN_1];
                let d2 = self.l2[(self.p2 + 1) % COMB_LEN_2];
                let d3 = self.l3[(self.p3 + 1) % COMB_LEN_3];
                let d4 = self.l4[(self.p4 + 1) % COMB_LEN_4];
                proof {
                    lemma_fx_mul_contract(d1 as int, 16384);
                    lemma_fx_mul_contract(d2 as int, 16384);
                    lemma_fx_mul_contract(d3 as int, 16384);
                    lemma_fx_mul_contract(d4 as int, 16384);
                    crate::fx::lemma_mul_fits(d1 as int, 16384, LINE_MAX as int, 16384);
                    crate::fx::lemma_mul_fits(d2 as int, 16384, LINE_MAX as int, 16384);
                    crate::fx::lemma_mul_fits(d3 as int, 16384, LINE_MAX as int, 16384);
                    crate::fx::lemma_mul_fits(d4 as int, 16384, LINE_MAX as int, 16384);
                    lemma_fx_mul_contract(d1 as int, self.params@[1] as int);
                    lemma_fx_mul_contract(d2 as int, self.params@[1] as int);
                    lemma_fx_mul_contract(d3 as int, self.params@[1] as int);
                    lemma_fx_mul_contract(d4 as int, self.params@[1] as int);
                    crate::fx::lemma_mul_fits(
                        d1 as int,
                        self.params@[1] as int,
                        LINE_MAX as int,
                        FX_ONE as int,
                    );
                    crate::fx::lemma_mul_fits(
                        d2 as int,
                        self.params@[1] as int,
                        LINE_MAX as int,
                        FX_ONE as int,
                    );
                    crate::fx::lemma_mul_fits(
                        d3 as int,
                        self.params@[1] as int,
                        LINE_MAX as int,
                        FX_ONE as int,
                    );
                    crate::fx::lemma_mul_fits(
                        d4 as int,
                        self.params@[1] as int,
                        LINE_MAX as int,
                        FX_ONE as int,
                    );
                }
                let wet = fx_mul(d1, 16384) + fx_mul(d2, 16384) + fx_mul(d3, 16384) + fx_mul(
                    d4,
                    16384,
                );
                let w1 = clamp_i64(x + fx_mul(d1, self.params[1]), -LINE_MAX, LINE_MAX);
                let w2 = clamp_i64(x + fx_mul(d2, self.params[1]), -LINE_MAX, LINE_MAX);
                let w3 = clamp_i64(x + fx_mul(d3, self.params[1]), -LINE_MAX, LINE_MAX);
                let w4 = clamp_i64(x + fx_mul(d4, self.params[1]), -LINE_MAX, LINE_MAX);
                self.l1[self.p1] = w1;
                self.l2[self.p2] = w2;
                self.l3[self.p3] = w3;
                self.l4[self.p4] = w4;
                self.p1 = (self.p1 + 1) % COMB_LEN_1;
                self.p2 = (self.p2 + 1) % COMB_LEN_2;
                self.p3 = (self.p3 + 1) % COMB_LEN_3;
                self.p4 = (self.p4 + 1) % COMB_LEN_4;
                proof {
                    lemma_fx_mul_contract(x as int, FX_ONE - self.params@[0] as int);
                    lemma_fx_mul_contract(wet as int, self.params@[0] as int);
                    crate::fx::lemma_mul_fits(
                        x as int,
                        FX_ONE - self.params@[0] as int,
                        EFFECT_MAX as int,
                        FX_ONE as int,
                    );
                    crate::fx::lemma_mul_fits(
                        wet as int,
                        self.params@[0] as int,
                        4 * LINE_MAX as int,
                        FX_ONE as int,
                    );
                }
                clamp_i64(
                    fx_mul(x, FX_ONE - self.params[0]) + fx_mul(wet, self.params[0]),
                    -EFFECT_MAX,
                    EFFECT_MAX,
                )
            }
            _ => 0,
        }
    }

    fn run_filter(&mut self, x: i64) -> (y: i64)
        requires
            old(self).inv(),
            old(self).kind == EffectKind::Filter,
            -EFFECT_MAX <= x <= EFFECT_MAX,
        ensures
            final(self).inv(),
            effect_stepped(*old(self), *final(self), x as int),
            y == effect_out(*old(self), x as int),
            -EFFECT_MAX <= y <= EFFECT_MAX,
    {
        match self.kind {
            EffectKind::Filter => {
                proof {
                    crate::fx::lemma_mul_fits(
                        self.params@[0] as int,
                        self.params@[0] as int,
                        FX_ONE as int,
                        FX_ONE as int,
                    );
                }
                let f = clamp_i64(fx_mul(self.params[0], self.params[0]), 66, 64881);
                let q = FX_ONE - self.params[1];
                proof {
                    lemma_fx_mul_contract(self.bp as int, f as int);
                    lemma_fx_mul_contract(self.bp as int, q as int);
                    crate::fx::lemma_mul_fits(
                        f as int,
                        self.bp as int,
                        FX_ONE as int,
                        EFF_STATE_MAX as int,
                    );
                    crate::fx::lemma_mul_fits(
                        q as int,
                        self.bp as int,
                        FX_ONE as int,
                        EFF_STATE_MAX as int,
                    );
                }
                let lp = clamp_i64(self.lp + fx_mul(f, self.bp), -EFF_STATE_MAX, EFF_STATE_MAX);
                let hp = x - lp - fx_mul(q, self.bp);
                proof {
                    lemma_fx_mul_contract(hp as int, f as int);
                    crate::fx::lemma_mul_fits(
                        f as int,
                        hp as int,
                        FX_ONE as int,
                        2 * EFF_STATE_MAX + EFFECT_MAX as int,
                    );
                }
                let bp = clamp_i64(self.bp + fx_mul(f, hp), -EFF_STATE_MAX, EFF_STATE_MAX);
                let tap = match self.mode {
                    FilterMode::LowPass => lp,
                    FilterMode::HighPass => hp,
                    FilterMode::BandPass => bp,
                };
                self.lp = lp;
                self.bp = bp;
                clamp_i64(tap, -EFFECT_MAX, EFFECT_MAX)
            }
            _ => 0,
        }
    }

    fn run_distortion(&mut self, x: i64) -> (y: i64)
        requires
            old(self).inv(),
            old(self).kind == EffectKind::Distortion,
            -EFFECT_MAX <= x <= EFFECT_MAX,
        ensures
            final(self).inv(),
            effect_stepped(*old(self), *final(self), x as int),
            y == effect_out(*old(self), x as int),
            -EFFECT_MAX <= y <= EFFECT_MAX,
    {
        match self.kind {
            EffectKind::Distortion => {
                proof {
                    crate::fx::lemma_mul_fits(
                        x as int,
                        self.params@[0] as int,
                        EFFECT_MAX as int,
                        10 * FX_ONE as int,
                    );
                }
                let xd = fx_mul(x, self.params[0]);
                proof {
                    assert(crate::fx::abs_spec(xd as int) * (FX_ONE as int) <= crate::fx::abs_spec(
                        (x as int) * (self.params@[0] as int),
                    ));
                    assert(crate::fx::abs_spec((x as int) * (self.params@[0] as int)) <= (
                    EFFECT_MAX as int) * 10 * (FX_ONE as int)) by (nonlinear_arith)
                        requires
                            -EFFECT_MAX <= x <= EFFECT_MAX,
                            0 <= self.params@[0] <= 10 * FX_ONE,
                    ;
                    assert(crate::fx::abs_spec(xd as int) <= 10 * (EFFECT_MAX as int))
                        by (nonlinear_arith)
                        requires
                            crate::fx::abs_spec(xd as int) * (FX_ONE as int) <= (EFFECT_MAX as int)
                                * 10 * (FX_ONE as int),
                    ;
                }
                let shaped = soft_sat(xd);
                let norm = soft_sat(self.params[0]);
                let driven = crate::fx::div_trunc(shaped * FX_ONE, norm);
                proof {
                    lemma_fx_mul_contract(x as int, FX_ONE - self.params@[1] as int);
                    crate::fx::lemma_mul_fits(
                        x as int,
                        FX_ONE - self.params@[1] as int,
                        EFFECT_MAX as int,
                        FX_ONE as int,
                    );
                    crate::fx::lemma_mul_fits(
                        driven as int,
                        self.params@[1] as int,
                        0x1_0000_0000,
                        FX_ONE as int,
                    );
                    lemma_fx_mul_contract(driven as int, self.params@[1] as int);
                }
                clamp_i64(
                    fx_mul(x, FX_ONE - self.params[1]) + fx_mul(driven, self.params[1]),
                    -EFFECT_MAX,
                    EFFECT_MAX,
                )
            }
            _ => 0,
        }
    }

    fn run_chorus(&mut self, x: i64) -> (y: i64)
        requires
            old(self).inv(),
            old(self).kind == EffectKind::Chorus,
            -EFFECT_MAX <= x <= EFFECT_MAX,
        ensures
            final(self).inv(),
            effect_stepped(*old(self), *final(self), x as int),
            y == effect_out(*old(self), x as int),
            -EFFECT_MAX <= y <= EFFECT_MAX,
    {
        match self.kind {
            EffectKind::Chorus => {
                proof {
                    crate::fx::lemma_mul_fits(
                        self.params@[1] as int,
                        SAMPLE_RATE_SAMPLES as int,
                        1311,
                        SAMPLE_RATE_SAMPLES as int,
                    );
                    vstd::arithmetic::div_mod::lemma_div_is_ordered(
                        (self.params@[1] as int) * (SAMPLE_RATE_SAMPLES as int),
                        1311 * (SAMPLE_RATE_SAMPLES as int),
                        FX_ONE as int,
                    );
                    assert(1311 * (SAMPLE_RATE_SAMPLES as int) / (FX_ONE as int) == 882);
                }
                let base = div_pos(self.params[1] * (SAMPLE_RATE_SAMPLES as i64), FX_ONE);
                proof {
                    vstd::arithmetic::div_mod::lemma_div_pos_is_pos(self.lfo as int, 1024);
                    vstd::arithmetic::div_mod::lemma_div_is_ordered(
                        self.lfo as int,
                        LFO_ONE as int - 1,
                        1024,
                    );
                    assert((LFO_ONE as int - 1) / 1024 < FX_ONE);
                }
                let wave = osc_wave(div_pos(self.lfo, 1024));
                proof {
                    crate::fx::lemma_mul_fits(base as int, FX_ONE + wave as int, 882, 2 * FX_ONE);
                    vstd::arithmetic::div_mod::lemma_div_pos_is_pos(
                        (base as int) * (FX_ONE + wave as int),
                        2 * FX_ONE as int,
                    );
                    assert((base as int) * (FX_ONE + wave as int) <= 882 * 2 * (FX_ONE as int))
                        by (nonlinear_arith)
                        requires
                            0 <= base <= 882,
                            0 <= FX_ONE + wave <= 2 * FX_ONE,
                    ;
                    vstd::arithmetic::div_mod::lemma_div_is_ordered(
                        (base as int) * (FX_ONE + wave as int),
                        882 * 2 * (FX_ONE as int),
                        2 * FX_ONE as int,
                    );
                    vstd::arithmetic::div_mod::lemma_div_by_multiple(882, 2 * FX_ONE as int);
                    assert(882 * 2 * (FX_ONE as int) == 882 * (2 * FX_ONE as int))
                        by (nonlinear_arith);
                }
                let swung = div_pos(base * (FX_ONE + wave), 2 * FX_ONE);
                let taps = if swung < 1 {
                    1usize
                } else {
                    swung as usize
                };
                let rp = (self.p1 + CHORUS_LINE_LEN - taps) % CHORUS_LINE_LEN;
                let delayed = self.l1[rp];
                let stored = clamp_i64(x, -LINE_MAX, LINE_MAX);
                self.l1[self.p1] = stored;
                self.p1 = (self.p1 + 1) % CHORUS_LINE_LEN;
                proof {
                    vstd::arithmetic::div_mod::lemma_div_pos_is_pos(
                        (self.params@[0] as int) * 1024,
                        SAMPLE_RATE_SAMPLES as int,
                    );
                    vstd::arithmetic::div_mod::lemma_div_is_ordered(
                        (self.params@[0] as int) * 1024,
                        327_680int * 1024,
                        SAMPLE_RATE_SAMPLES as int,
                    );
                    assert(327_680int * 1024 / (SAMPLE_RATE_SAMPLES as int) < LFO_ONE);
                }
                let inc = div_pos(self.params[0] * 1024, SAMPLE_RATE_SAMPLES as i64);
                let lf = self.lfo + inc;
                self.lfo = if lf >= LFO_ONE {
                    lf - LFO_ONE
                } else {
                    lf
                };
                proof {
                    lemma_fx_mul_contract(x as int, FX_ONE - self.params@[2] as int);
                    lemma_fx_mul_contract(delayed as int, self.params@[2] as int);
                    crate::fx::lemma_mul_fits(
                        x as int,
                        FX_ONE - self.params@[2] as int,
                        EFFECT_MAX as int,
                        FX_ONE as int,
                    );
                    crate::fx::lemma_mul_fits(
                        delayed as int,
                        self.params@[2] as int,
                        LINE_MAX as int,
                        FX_ONE as int,
                    );
                }
                clamp_i64(
                    fx_mul(x, FX_ONE - self.params[2]) + fx_mul(delayed, self.params[2]),
                    -EFFECT_MAX,
                    EFFECT_MAX,
                )
            }
            _ => 0,
        }
    }
}

/// Two effects indistinguishable to a caller: every field, lines by view.
pub open spec fn effect_same(a: Effect, b: Effect) -> bool {
    &&& b.kind == a.kind
    &&& b.params == a.params
    &&& b.bypassed == a.bypassed
    &&& b.mode == a.mode
    &&& b.l1@ == a.l1@ && b.l2@ == a.l2@ && b.l3@ == a.l3@ && b.l4@ == a.l4@
    &&& b.p1 == a.p1 && b.p2 == a.p2 && b.p3 == a.p3 && b.p4 == a.p4
    &&& b.lp == a.lp && b.bp == a.bp && b.lfo == a.lfo
}

/// How a whole chain advances over one sample: bypassed slots idle, the
/// others step on the running signal.
pub open spec fn chain_stepped(a: Seq<Effect>, b: Seq<Effect>, x: int) -> bool {
    &&& b.len() == a.len()
    &&& forall|i: int|
        0 <= i < a.len() ==> if a[i].bypassed {
            effect_same(a[i], #[trigger] b[i])
        } else {
            effect_stepped(a[i], b[i], chain_out_upto(a, i, x))
        }
}

/// The chain's output after its first `k` effects, skipping bypassed ones.
pub open spec fn chain_out_upto(s: Seq<Effect>, k: int, x: int) -> int
    decreases k,
{
    if k <= 0 {
        x
    } else {
        let prev = chain_out_upto(s, k - 1, x);
        if s[k - 1].bypassed {
            prev
        } else {
            effect_out(s[k - 1], prev)
        }
    }
}

/// The ordered, bypassable effects of one track.
pub struct EffectChain {
    pub effects: Vec<Effect>,
}

impl EffectChain {
    pub open spec fn inv(self) -> bool {
        forall|i: int| 0 <= i < self.effects@.len() ==> (#[trigger] self.effects@[i]).inv()
    }

    pub fn new() -> (c: EffectChain)
        ensures
            c.inv(),
            c.effects@.len() == 0,
    {
        EffectChain { effects: Vec::new() }
    }

    pub fn add(&mut self, effect: Effect)
        requires
            old(self).inv(),
            effect.inv(),
        ensures
            final(self).inv(),
            final(self).effects@.len() == old(self).effects@.len() + 1,
    {
        self.effects.push(effect);
    }

    pub fn len(&self) -> (r: usize)
        ensures
            r == self.effects@.len(),
    {
        self.effects.len()
    }

    /// Processes one sample through every non-bypassed effect in slot order.
    pub fn process_sample(&mut self, x: i64) -> (y: i64)
        requires
            old(self).inv(),
            -EFFECT_MAX <= x <= EFFECT_MAX,
        ensures
            final(self).inv(),
            final(self).effects@.len() == old(self).effects@.len(),
            y == chain_out_upto(old(self).effects@, old(self).effects@.len() as int, x as int),
            -EFFECT_MAX <= y <= EFFECT_MAX,
            chain_stepped(old(self).effects@, final(self).effects@, x as int),
    {
        let n = self.effects.len();
        let mut cur = x;
        let mut k: usize = 0;
        while k < n
            invariant
                old(self).inv(),
                n == self.effects@.len(),
                n == old(self).effects@.len(),
                k <= n,
                -EFFECT_MAX <= cur <= EFFECT_MAX,
                cur == chain_out_upto(old(self).effects@, k as int, x as int),
                forall|i: int| 0 <= i < k ==> (#[trigger] self.effects@[i]).inv(),
                forall|i: int|
                    0 <= i < k ==> if old(self).effects@[i].bypassed {
                        effect_same(old(self).effects@[i], #[trigger] self.effects@[i])
                    } else {
                        effect_stepped(
                            old(self).effects@[i],
                            self.effects@[i],
                            chain_out_upto(old(self).effects@, i, x as int),
                        )
                    },
                forall|i: int| k <= i < n ==> #[trigger] self.effects@[i] == old(self).effects@[i],
            decreases n - k,
        {
            if !self.effects[k].is_bypassed() {
                cur = self.effects[k].process_sample(cur);
            } else {
                proof {
                    assert(effect_same(old(self).effects@[k as int], self.effects@[k as int]));
                }
            }
            k = k + 1;
        }
        cur
    }

    /// Flips one slot's bypass flag; out-of-range slots are ignored.
    pub fn toggle_bypass(&mut self, slot: usize)
        requires
            old(self).inv(),
        ensures
            final(self).inv(),
            final(self).effects@.len() == old(self).effects@.len(),
            slot < old(self).effects@.len() ==> final(self).effects@[slot as int].bypassed == !old(self).effects@[slot as int].bypassed,
            forall|i: int|
                0 <= i < old(self).effects@.len() && i != slot ==> #[trigger] final(self).effects@[i] == old(self).effects@[i],
    {
        if slot < self.effects.len() {
            let b = self.effects[slot].is_bypassed();
            self.effects[slot].set_bypass(!b);
        }
    }

    /// Sets one parameter of one slot; out-of-range slots are ignored.
    pub fn set_effect_param(&mut self, slot: usize, param: usize, value: i64)
        requires
            old(self).inv(),
            -0x1_0000_0000 <= value <= 0x1_0000_0000,
        ensures
            final(self).inv(),
            final(self).effects@.len() == old(self).effects@.len(),
            forall|i: int|
                0 <= i < old(self).effects@.len() && i != slot ==> #[trigger] final(self).effects@[i] == old(self).effects@[i],
            slot < old(self).effects@.len() ==> param_applied(
                old(self).effects@[slot as int],
                final(self).effects@[slot as int],
                param as int,
                value as int,
            ),
            slot >= old(self).effects@.len() ==> final(self).effects@ == old(self).effects@,
    {
        if slot < self.effects.len() {
            self.effects[slot].set_param(param, value);
        }
    }
}

} // verus!
