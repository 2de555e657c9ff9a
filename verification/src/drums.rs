//! Synthesized drum kit: six monophonic voices, each a tuned oscillator
//! mixed with noise under a pitch envelope and an exponentially decaying
//! amplitude envelope.

use vstd::prelude::*;

use crate::constants::{FX_ONE, INSTRUMENT_COUNT, SAMPLE_RATE_SAMPLES};
use crate::fx::{
    abs_spec, div_pos, div_trunc, fx_mul, fx_mul_spec, lcg_next, lcg_next_spec,
    lemma_fx_mul_contract, lemma_fx_scale_strict, noise_of, noise_sample, osc_wave, osc_wave_spec,
    tdiv,
};

verus! {

/// A voice deactivates once its envelope falls below this gate.
pub const DRUM_GATE: i64 = 66;

/// Largest base or sweep frequency a voice carries, in fixed-point Hz.
pub const MAX_VOICE_FREQ: i64 = 131_072_000;

pub struct DrumVoice {
    /// Oscillator phase in `[0, 1)` cycles.
    pub phase: i64,
    /// Base frequency, fixed-point Hz.
    pub freq: i64,
    /// Amplitude envelope in `[0, 1]`.
    pub envelope: i64,
    /// Per-sample envelope decay factor, strictly below 1.
    pub decay: i64,
    pub active: bool,
    pub noise_state: u32,
    /// Oscillator/noise blend in `[0, 1]`.
    pub noise_amount: i64,
    /// Pitch envelope in `[0, 1]`.
    pub pitch_env: i64,
    /// Per-sample pitch envelope decay factor, strictly below 1.
    pub pitch_decay: i64,
    /// Pitch sweep depth, fixed-point Hz.
    pub pitch_amount: i64,
}

/// The oscillator phase after one sample at the given frequency.
pub open spec fn advance_phase_spec(phase: int, freq: int) -> int {
    let inc = freq / (SAMPLE_RATE_SAMPLES as int);
    if phase + inc >= FX_ONE {
        phase + inc - FX_ONE
    } else {
        phase + inc
    }
}

/// The oscillator/noise blend a voice emits before the envelope.
pub open spec fn voice_mix(phase: int, state: u32, noise_amount: int) -> int {
    fx_mul_spec(osc_wave_spec(phase), FX_ONE - noise_amount) + fx_mul_spec(
        noise_of(state),
        noise_amount,
    )
}

/// The state of a voice after emitting one sample.
pub open spec fn voice_step(v: DrumVoice) -> DrumVoice {
    if !v.active {
        v
    } else {
        let pe = fx_mul_spec(v.pitch_env as int, v.pitch_decay as int);
        let freq_now = v.freq + fx_mul_spec(v.pitch_amount as int, pe);
        let env = fx_mul_spec(v.envelope as int, v.decay as int);
        DrumVoice {
            phase: advance_phase_spec(v.phase as int, freq_now) as i64,
            pitch_env: pe as i64,
            noise_state: lcg_next_spec(v.noise_state),
            envelope: env as i64,
            active: env >= DRUM_GATE,
            ..v
        }
    }
}

/// The sample a voice emits: the blend under the freshly decayed envelope,
/// silence when inactive.
pub open spec fn voice_out(v: DrumVoice) -> int {
    if !v.active {
        0
    } else {
        fx_mul_spec(
            voice_mix(v.phase as int, lcg_next_spec(v.noise_state), v.noise_amount as int),
            fx_mul_spec(v.envelope as int, v.decay as int),
        )
    }
}

impl DrumVoice {
    pub open spec fn inv(self) -> bool {
        &&& 0 <= self.phase < FX_ONE
        &&& 0 <= self.envelope <= FX_ONE
        &&& 0 <= self.decay < FX_ONE
        &&& 0 <= self.noise_amount <= FX_ONE
        &&& 0 <= self.pitch_env <= FX_ONE
        &&& 0 <= self.pitch_decay < FX_ONE
        &&& 0 <= self.freq <= MAX_VOICE_FREQ
        &&& 0 <= self.pitch_amount <= MAX_VOICE_FREQ
    }

    /// Restarts the voice: phase and both envelopes are reset and it becomes
    /// active at full level.
    pub fn trigger(&mut self)
        requires
            old(self).inv(),
        ensures
            final(self).inv(),
            *final(self) == (DrumVoice {
                phase: 0,
                envelope: FX_ONE,
                pitch_env: FX_ONE,
                active: true,
                ..*old(self)
            }),
    {
        self.phase = 0;
        self.envelope = FX_ONE;
        self.pitch_env = FX_ONE;
        self.active = true;
    }

    /// Emits one sample and advances the voice: the pitch envelope decays,
    /// the oscillator advances at the swept frequency, the noise generator
    /// steps, and the amplitude envelope decays, gating the voice off below
    /// the threshold. The sample's magnitude never exceeds the envelope.
    pub fn process(&mut self) -> (out: i64)
        requires
            old(self).inv(),
        ensures
            final(self).inv(),
            *final(self) == voice_step(*old(self)),
            out == voice_out(*old(self)),
            abs_spec(out as int) <= final(self).envelope,
            final(self).envelope <= old(self).envelope,
    {
        if !self.active {
            return 0;
        }
        proof {
            lemma_fx_mul_contract(self.pitch_env as int, self.pitch_decay as int);
        }
        let pe = fx_mul(self.pitch_env, self.pitch_decay);
        proof {
            lemma_fx_mul_contract(self.pitch_amount as int, pe as int);
        }
        let sweep = fx_mul(self.pitch_amount, pe);
        let freq_now = self.freq + sweep;
        let osc = osc_wave(self.phase);
        proof {
            vstd::arithmetic::div_mod::lemma_div_pos_is_pos(
                freq_now as int,
                SAMPLE_RATE_SAMPLES as int,
            );
            vstd::arithmetic::div_mod::lemma_div_is_ordered(
                freq_now as int,
                2 * MAX_VOICE_FREQ as int,
                SAMPLE_RATE_SAMPLES as int,
            );
            assert(2 * (MAX_VOICE_FREQ as int) / (SAMPLE_RATE_SAMPLES as int) < FX_ONE);
        }
        let inc = div_pos(freq_now, SAMPLE_RATE_SAMPLES as i64);
        let mut ph = self.phase + inc;
        if ph >= FX_ONE {
            ph = ph - FX_ONE;
        }
        let ns = lcg_next(self.noise_state);
        let noise = noise_sample(ns);
        proof {
            lemma_fx_mul_contract(osc as int, FX_ONE - self.noise_amount as int);
            lemma_fx_mul_contract(noise as int, self.noise_amount as int);
        }
        let mix = fx_mul(osc, FX_ONE - self.noise_amount) + fx_mul(noise, self.noise_amount);
        proof {
            lemma_fx_mul_contract(self.envelope as int, self.decay as int);
        }
        let env = fx_mul(self.envelope, self.decay);
        proof {
            lemma_fx_mul_contract(mix as int, env as int);
        }
        let out = fx_mul(mix, env);
        self.pitch_env = pe;
        self.phase = ph;
        self.noise_state = ns;
        self.envelope = env;
        if env < DRUM_GATE {
            self.active = false;
        }
        out
    }
}

/// A triggered voice starts at full envelope; every later sample scales the
/// envelope by a factor strictly below one, so it strictly decreases while
/// nonzero; a sample's magnitude never exceeds the decayed envelope; and
/// the voice goes inactive just when the envelope sinks under the cutoff
/// threshold.
pub proof fn lemma_drum_magnitude_decays(v: DrumVoice)
    requires
        v.inv(),
        v.active,
    ensures
        voice_step(v).envelope <= v.envelope,
        v.envelope >= 1 ==> voice_step(v).envelope < v.envelope,
        abs_spec(voice_out(v)) <= voice_step(v).envelope,
        voice_step(v).active == (voice_step(v).envelope >= DRUM_GATE),
{
    lemma_fx_mul_contract(v.envelope as int, v.decay as int);
    if v.envelope >= 1 {
        lemma_fx_scale_strict(v.envelope as int, v.decay as int);
    }
    let ns = lcg_next_spec(v.noise_state);
    crate::fx::lemma_osc_wave_bounds(v.phase as int);
    crate::fx::lemma_noise_bounds(ns);
    lemma_fx_mul_contract(osc_wave_spec(v.phase as int), FX_ONE - v.noise_amount as int);
    lemma_fx_mul_contract(noise_of(ns), v.noise_amount as int);
    let env = fx_mul_spec(v.envelope as int, v.decay as int);
    lemma_fx_mul_contract(voice_mix(v.phase as int, ns, v.noise_amount as int), env);
}

/// The six-voice kit and the display names of its instruments.
pub struct DrumKit {
    pub voices: Vec<DrumVoice>,
    pub names: Vec<&'static str>,
}

/// The summed output of the first `k` voices.
pub open spec fn kit_sum(s: Seq<DrumVoice>, k: int) -> int
    decreases k,
{
    if k <= 0 {
        0
    } else {
        kit_sum(s, k - 1) + voice_out(s[k - 1])
    }
}

impl DrumKit {
    pub open spec fn inv(self) -> bool {
        &&& self.voices@.len() == INSTRUMENT_COUNT
        &&& forall|i: int| 0 <= i < INSTRUMENT_COUNT ==> (#[trigger] self.voices@[i]).inv()
    }

    /// The kit with its six tuned instruments, all silent: kick, snare,
    /// hi-hat, clap, tom and rim, each with its fixed frequency, envelope
    /// decay, noise blend and pitch sweep.
    pub fn new() -> (k: DrumKit)
        ensures
            k.inv(),
            k.voices@.len() == INSTRUMENT_COUNT,
            k.voices@[0] == (DrumVoice {
                phase: 0,
                freq: 3_604_480,
                envelope: 0,
                decay: 65_533,
                active: false,
                noise_state: 1,
                noise_amount: 3_277,
                pitch_env: 0,
                pitch_decay: 65_470,
                pitch_amount: 13_107_200,
            }),
            k.voices@[1] == (DrumVoice {
                phase: 0,
                freq: 11_796_480,
                envelope: 0,
                decay: 65_531,
                active: false,
                noise_state: 2,
                noise_amount: 39_322,
                pitch_env: 0,
                pitch_decay: 65_405,
                pitch_amount: 5_242_880,
            }),
            k.voices@[2] == (DrumVoice {
                phase: 0,
                freq: 52_428_800,
                envelope: 0,
                decay: 65_526,
                active: false,
                noise_state: 3,
                noise_amount: 62_259,
                pitch_env: 0,
                pitch_decay: 65_470,
                pitch_amount: 0,
            }),
            k.voices@[3] == (DrumVoice {
                phase: 0,
                freq: 26_214_400,
                envelope: 0,
                decay: 65_528,
                active: false,
                noise_state: 4,
                noise_amount: 52_429,
                pitch_env: 0,
                pitch_decay: 65_339,
                pitch_amount: 3_276_800,
            }),
            k.voices@[4] == (DrumVoice {
                phase: 0,
                freq: 6_553_600,
                envelope: 0,
                decay: 65_532,
                active: false,
                noise_state: 5,
                noise_amount: 6_554,
                pitch_env: 0,
                pitch_decay: 65_503,
                pitch_amount: 9_830_400,
            }),
            k.voices@[5] == (DrumVoice {
                phase: 0,
                freq: 39_321_600,
                envelope: 0,
                decay: 65_523,
                active: false,
                noise_state: 6,
                noise_amount: 19_661,
                pitch_env: 0,
                pitch_decay: 65_274,
                pitch_amount: 6_553_600,
            }),
            forall|i: int| 0 <= i < INSTRUMENT_COUNT ==> !(#[trigger] k.voices@[i]).active,
            k.names@.len() == INSTRUMENT_COUNT,
            k.names@[0]@ == "KICK"@,
            k.names@[1]@ == "SNARE"@,
            k.names@[2]@ == "HAT"@,
            k.names@[3]@ == "CLAP"@,
            k.names@[4]@ == "TOM"@,
            k.names@[5]@ == "RIM"@,
    {
        let mut voices: Vec<DrumVoice> = Vec::new();
        // Kick: long boom with a deep pitch sweep.
        voices.push(
            DrumVoice {
                phase: 0,
                freq: 3_604_480,
                envelope: 0,
                decay: 65_533,
                active: false,
                noise_state: 1,
                noise_amount: 3_277,
                pitch_env: 0,
                pitch_decay: 65_470,
                pitch_amount: 13_107_200,
            },
        );
        // Snare: sharp crack with a heavy noise tail.
        voices.push(
            DrumVoice {
                phase: 0,
                freq: 11_796_480,
                envelope: 0,
                decay: 65_531,
                active: false,
                noise_state: 2,
                noise_amount: 39_322,
                pitch_env: 0,
                pitch_decay: 65_405,
                pitch_amount: 5_242_880,
            },
        );
        // Hi-hat: bright, almost pure noise.
        voices.push(
            DrumVoice {
                phase: 0,
                freq: 52_428_800,
                envelope: 0,
                decay: 65_526,
                active: false,
                noise_state: 3,
                noise_amount: 62_259,
                pitch_env: 0,
                pitch_decay: 65_470,
                pitch_amount: 0,
            },
        );
        // Clap: short noise burst.
        voices.push(
            DrumVoice {
                phase: 0,
                freq: 26_214_400,
                envelope: 0,
                decay: 65_528,
                active: false,
                noise_state: 4,
                noise_amount: 52_429,
                pitch_env: 0,
                pitch_decay: 65_339,
                pitch_amount: 3_276_800,
            },
        );
        // Tom: medium boom.
        voices.push(
            DrumVoice {
                phase: 0,
                freq: 6_553_600,
                envelope: 0,
                decay: 65_532,
                active: false,
                noise_state: 5,
                noise_amount: 6_554,
                pitch_env: 0,
                pitch_decay: 65_503,
                pitch_amount: 9_830_400,
            },
        );
        // Rim: short click.
        voices.push(
            DrumVoice {
                phase: 0,
                freq: 39_321_600,
                envelope: 0,
                decay: 65_523,
                active: false,
                noise_state: 6,
                noise_amount: 19_661,
                pitch_env: 0,
                pitch_decay: 65_274,
                pitch_amount: 6_553_600,
            },
        );
        let mut names: Vec<&'static str> = Vec::new();
        names.push("KICK");
        names.push("SNARE");
        names.push("HAT");
        names.push("CLAP");
        names.push("TOM");
        names.push("RIM");
        DrumKit { voices, names }
    }

    /// Retriggers one instrument; out-of-range indices are ignored.
    pub fn trigger(&mut self, instrument: usize)
        requires
            old(self).inv(),
        ensures
            final(self).inv(),
            instrument < INSTRUMENT_COUNT ==> final(self).voices@ == old(self).voices@.update(
                instrument as int,
                DrumVoice {
                    phase: 0,
                    envelope: FX_ONE,
                    pitch_env: FX_ONE,
                    active: true,
                    ..old(self).voices@[instrument as int]
                },
            ),
            instrument >= INSTRUMENT_COUNT ==> final(self).voices@ == old(self).voices@,
            final(self).names == old(self).names,
    {
        if instrument < self.voices.len() {
            self.voices[instrument].trigger();
        }
    }

    /// Emits one sample: every voice steps once and their outputs are summed
    /// under a fixed headroom halving.
    pub fn process(&mut self) -> (out: i64)
        requires
            old(self).inv(),
        ensures
            final(self).inv(),
            forall|i: int|
                0 <= i < INSTRUMENT_COUNT ==> #[trigger] final(self).voices@[i] == voice_step(
                    old(self).voices@[i],
                ),
            out == tdiv(kit_sum(old(self).voices@, INSTRUMENT_COUNT as int), 2),
            -3 * FX_ONE <= out <= 3 * FX_ONE,
            final(self).names == old(self).names,
    {
        let n = self.voices.len();
        let mut sum: i64 = 0;
        let mut k: usize = 0;
        while k < n
            invariant
                old(self).inv(),
                n == INSTRUMENT_COUNT,
                self.voices@.len() == n,
                self.names == old(self).names,
                k <= n,
                forall|i: int|
                    0 <= i < k ==> #[trigger] self.voices@[i] == voice_step(old(self).voices@[i]),
                forall|i: int| 0 <= i < k ==> (#[trigger] self.voices@[i]).inv(),
                forall|i: int| k <= i < n ==> #[trigger] self.voices@[i] == old(self).voices@[i],
                sum == kit_sum(old(self).voices@, k as int),
                -(k as int) * FX_ONE <= sum <= (k as int) * FX_ONE,
            decreases n - k,
        {
            proof {
                assert(self.voices@[k as int] == old(self).voices@[k as int]);
                assert(old(self).voices@[k as int].inv());
            }
            let v = self.voices[k].process();
            proof {
                if old(self).voices@[k as int].active {
                    lemma_drum_magnitude_decays(old(self).voices@[k as int]);
                }
            }
            proof {
                assert((k as int + 1) * FX_ONE == (k as int) * FX_ONE + FX_ONE)
                    by (nonlinear_arith);
            }
            sum = sum + v;
            k = k + 1;
        }
        let out = div_trunc(sum, 2);
        proof {
            if sum >= 0 {
                vstd::arithmetic::div_mod::lemma_div_is_ordered(
                    sum as int,
                    6 * FX_ONE as int,
                    2,
                );
            } else {
                vstd::arithmetic::div_mod::lemma_div_is_ordered(
                    -sum as int,
                    6 * FX_ONE as int,
                    2,
                );
            }
        }
        out
    }
}

} // verus!
