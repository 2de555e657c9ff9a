//! Per-track level / pan / mute / solo state and the stereo gain law.

use vstd::prelude::*;

use crate::constants::{FX_ONE, TRACK_COUNT};
use crate::fx::{clamp_i64, clamp_spec, fx_mul, fx_mul_spec};

verus! {

/// Largest track sample magnitude `mix` accepts.
pub const MIX_IN_MAX: i64 = 0x1_0000_0000;

pub struct MixerState {
    pub levels: [i64; TRACK_COUNT],
    pub pans: [i64; TRACK_COUNT],
    pub mutes: [bool; TRACK_COUNT],
    pub solos: [bool; TRACK_COUNT],
}

impl MixerState {
    /// Levels sit in `[0, 1]` and pans in `[-1, 1]`, in fixed-point units.
    pub open spec fn inv(self) -> bool {
        &&& forall|i: int| 0 <= i < TRACK_COUNT ==> 0 <= #[trigger] self.levels@[i] <= FX_ONE
        &&& forall|i: int|
            0 <= i < TRACK_COUNT ==> -FX_ONE <= #[trigger] self.pans@[i] <= FX_ONE
    }

    pub open spec fn any_solo(self) -> bool {
        exists|i: int| 0 <= i < TRACK_COUNT && self.solos@[i]
    }

    /// A track is silenced when muted, or when some track is soloed and this
    /// one is not.
    pub open spec fn silenced(self, track: int) -> bool {
        self.mutes@[track] || (self.any_solo() && !self.solos@[track])
    }

    /// Left gain: the level, attenuated only when panned right.
    pub open spec fn gain_left(self, track: int) -> int {
        if self.silenced(track) {
            0
        } else {
            fx_mul_spec(
                self.levels@[track] as int,
                FX_ONE - (if self.pans@[track] > 0 {
                    self.pans@[track] as int
                } else {
                    0
                }),
            )
        }
    }

    /// Right gain: the level, attenuated only when panned left.
    pub open spec fn gain_right(self, track: int) -> int {
        if self.silenced(track) {
            0
        } else {
            fx_mul_spec(
                self.levels@[track] as int,
                FX_ONE + (if self.pans@[track] < 0 {
                    self.pans@[track] as int
                } else {
                    0
                }),
            )
        }
    }

    pub fn new() -> (m: MixerState)
        ensures
            m.inv(),
            forall|i: int|
                0 <= i < TRACK_COUNT ==> {
                    &&& #[trigger] m.levels@[i] == 52429
                    &&& m.pans@[i] == 0
                    &&& !m.mutes@[i]
                    &&& !m.solos@[i]
                },
    {
        MixerState {
            levels: [52429, 52429, 52429, 52429],
            pans: [0, 0, 0, 0],
            mutes: [false, false, false, false],
            solos: [false, false, false, false],
        }
    }

    /// Sets a track level, clamping into `[0, 1]`.
    pub fn set_level(&mut self, track: usize, value: i64)
        requires
            old(self).inv(),
            track < TRACK_COUNT,
        ensures
            final(self).inv(),
            final(self).levels@ == old(self).levels@.update(
                track as int,
                clamp_spec(value as int, 0, FX_ONE as int) as i64,
            ),
            final(self).pans == old(self).pans,
            final(self).mutes == old(self).mutes,
            final(self).solos == old(self).solos,
    {
        let v = clamp_i64(value, 0, FX_ONE);
        self.levels[track] = v;
    }

    /// Sets a track pan, clamping into `[-1, 1]`.
    pub fn set_pan(&mut self, track: usize, value: i64)
        requires
            old(self).inv(),
            track < TRACK_COUNT,
        ensures
            final(self).inv(),
            final(self).pans@ == old(self).pans@.update(
                track as int,
                clamp_spec(value as int, -FX_ONE as int, FX_ONE as int) as i64,
            ),
            final(self).levels == old(self).levels,
            final(self).mutes == old(self).mutes,
            final(self).solos == old(self).solos,
    {
        let v = clamp_i64(value, -FX_ONE, FX_ONE);
        self.pans[track] = v;
    }

    pub fn set_mute(&mut self, track: usize, value: bool)
        requires
            old(self).inv(),
            track < TRACK_COUNT,
        ensures
            final(self).inv(),
            final(self).mutes@ == old(self).mutes@.update(track as int, value),
            final(self).levels == old(self).levels,
            final(self).pans == old(self).pans,
            final(self).solos == old(self).solos,
    {
        self.mutes[track] = value;
    }

    pub fn set_solo(&mut self, track: usize, value: bool)
        requires
            old(self).inv(),
            track < TRACK_COUNT,
        ensures
            final(self).inv(),
            final(self).solos@ == old(self).solos@.update(track as int, value),
            final(self).levels == old(self).levels,
            final(self).pans == old(self).pans,
            final(self).mutes == old(self).mutes,
    {
        self.solos[track] = value;
    }

    /// Stereo gain pair for one track.
    pub fn track_gain(&self, track: usize) -> (g: (i64, i64))
        requires
            self.inv(),
            track < TRACK_COUNT,
        ensures
            g.0 == self.gain_left(track as int),
            g.1 == self.gain_right(track as int),
            0 <= g.0 <= FX_ONE,
            0 <= g.1 <= FX_ONE,
    {
        proof {
            lemma_gain_in_range(*self, track as int);
        }
        if self.mutes[track] {
            return (0, 0);
        }
        let any_solo = self.solos[0] || self.solos[1] || self.solos[2] || self.solos[3];
        assert(any_solo == self.any_solo());
        if any_solo && !self.solos[track] {
            return (0, 0);
        }
        let level = self.levels[track];
        let pan = self.pans[track];
        let pan_r = if pan > 0 {
            pan
        } else {
            0
        };
        let pan_l = if pan < 0 {
            pan
        } else {
            0
        };
        let left = fx_mul(level, FX_ONE - pan_r);
        let right = fx_mul(level, FX_ONE + pan_l);
        (left, right)
    }

    pub open spec fn mix_left(self, s: Seq<i64>) -> int {
        fx_mul_spec(s[0] as int, self.gain_left(0)) + fx_mul_spec(s[1] as int, self.gain_left(1))
            + fx_mul_spec(s[2] as int, self.gain_left(2)) + fx_mul_spec(
            s[3] as int,
            self.gain_left(3),
        )
    }

    pub open spec fn mix_right(self, s: Seq<i64>) -> int {
        fx_mul_spec(s[0] as int, self.gain_right(0)) + fx_mul_spec(s[1] as int, self.gain_right(1))
            + fx_mul_spec(s[2] as int, self.gain_right(2)) + fx_mul_spec(
            s[3] as int,
            self.gain_right(3),
        )
    }

    /// Sums the gain-weighted track samples into one stereo pair.
    pub fn mix(&self, track_samples: &[i64; TRACK_COUNT]) -> (out: (i64, i64))
        requires
            self.inv(),
            forall|i: int|
                0 <= i < TRACK_COUNT ==> -MIX_IN_MAX <= #[trigger] track_samples@[i] <= MIX_IN_MAX,
        ensures
            out.0 == self.mix_left(track_samples@),
            out.1 == self.mix_right(track_samples@),
            -4 * MIX_IN_MAX <= out.0 <= 4 * MIX_IN_MAX,
            -4 * MIX_IN_MAX <= out.1 <= 4 * MIX_IN_MAX,
    {
        let mut left: i64 = 0;
        let mut right: i64 = 0;
        let g0 = self.track_gain(0);
        let g1 = self.track_gain(1);
        let g2 = self.track_gain(2);
        let g3 = self.track_gain(3);
        proof {
            lemma_weighted_sample_bound(track_samples@[0] as int, g0.0 as int);
            lemma_weighted_sample_bound(track_samples@[0] as int, g0.1 as int);
            lemma_weighted_sample_bound(track_samples@[1] as int, g1.0 as int);
            lemma_weighted_sample_bound(track_samples@[1] as int, g1.1 as int);
            lemma_weighted_sample_bound(track_samples@[2] as int, g2.0 as int);
            lemma_weighted_sample_bound(track_samples@[2] as int, g2.1 as int);
            lemma_weighted_sample_bound(track_samples@[3] as int, g3.0 as int);
            lemma_weighted_sample_bound(track_samples@[3] as int, g3.1 as int);
        }
        left = fx_mul(track_samples[0], g0.0) + fx_mul(track_samples[1], g1.0) + fx_mul(
            track_samples[2],
            g2.0,
        ) + fx_mul(track_samples[3], g3.0);
        right = fx_mul(track_samples[0], g0.1) + fx_mul(track_samples[1], g1.1) + fx_mul(
            track_samples[2],
            g2.1,
        ) + fx_mul(track_samples[3], g3.1);
        (left, right)
    }
}

/// Both gains of any track stay within `[0, 1]`.
pub proof fn lemma_gain_in_range(m: MixerState, track: int)
    requires
        m.inv(),
        0 <= track < TRACK_COUNT,
    ensures
        0 <= m.gain_left(track) <= FX_ONE,
        0 <= m.gain_right(track) <= FX_ONE,
{
    if !m.silenced(track) {
        let level = m.levels@[track] as int;
        let pan = m.pans@[track] as int;
        let fl = FX_ONE - (if pan > 0 {
            pan
        } else {
            0
        });
        let fr = FX_ONE + (if pan < 0 {
            pan
        } else {
            0
        });
        lemma_level_factor_bound(level, fl);
        lemma_level_factor_bound(level, fr);
    }
}

proof fn lemma_level_factor_bound(level: int, factor: int)
    requires
        0 <= level <= FX_ONE,
        0 <= factor <= FX_ONE,
    ensures
        0 <= fx_mul_spec(level, factor) <= FX_ONE,
        level == FX_ONE ==> fx_mul_spec(level, factor) == factor,
        factor == FX_ONE ==> fx_mul_spec(level, factor) == level,
        level == 0 || factor == 0 ==> fx_mul_spec(level, factor) == 0,
{
    vstd::arithmetic::mul::lemma_mul_upper_bound(level, FX_ONE as int, factor, FX_ONE as int);
    vstd::arithmetic::mul::lemma_mul_nonnegative(level, factor);
    vstd::arithmetic::div_mod::lemma_div_pos_is_pos(level * factor, FX_ONE as int);
    vstd::arithmetic::div_mod::lemma_div_is_ordered(
        level * factor,
        FX_ONE as int * FX_ONE as int,
        FX_ONE as int,
    );
    vstd::arithmetic::div_mod::lemma_div_multiples_vanish(FX_ONE as int, FX_ONE as int);
    assert(FX_ONE as int * FX_ONE as int / FX_ONE as int == FX_ONE as int);
    if level == FX_ONE {
        vstd::arithmetic::div_mod::lemma_div_multiples_vanish(factor, FX_ONE as int);
    }
    if factor == FX_ONE {
        vstd::arithmetic::div_mod::lemma_div_multiples_vanish(level, FX_ONE as int);
        assert(level * FX_ONE == FX_ONE as int * level) by (nonlinear_arith);
    }
    if level == 0 || factor == 0 {
        assert(level * factor == 0);
    }
}

proof fn lemma_weighted_sample_bound(s: int, g: int)
    requires
        -MIX_IN_MAX <= s <= MIX_IN_MAX,
        0 <= g <= FX_ONE,
    ensures
        -MIX_IN_MAX <= fx_mul_spec(s, g) <= MIX_IN_MAX,
        -0x4000_0000_0000_0000 <= s * g <= 0x4000_0000_0000_0000,
{
    assert(-(MIX_IN_MAX as int * FX_ONE as int) <= s * g <= MIX_IN_MAX as int * FX_ONE as int)
        by (nonlinear_arith)
        requires
            -MIX_IN_MAX <= s <= MIX_IN_MAX,
            0 <= g <= FX_ONE,
    ;
    if s * g >= 0 {
        vstd::arithmetic::div_mod::lemma_div_pos_is_pos(s * g, FX_ONE as int);
        vstd::arithmetic::div_mod::lemma_div_is_ordered(
            s * g,
            MIX_IN_MAX as int * FX_ONE as int,
            FX_ONE as int,
        );
        vstd::arithmetic::div_mod::lemma_div_multiples_vanish(MIX_IN_MAX as int, FX_ONE as int);
    } else {
        vstd::arithmetic::div_mod::lemma_div_pos_is_pos(-(s * g), FX_ONE as int);
        vstd::arithmetic::div_mod::lemma_div_is_ordered(
            -(s * g),
            MIX_IN_MAX as int * FX_ONE as int,
            FX_ONE as int,
        );
        vstd::arithmetic::div_mod::lemma_div_multiples_vanish(MIX_IN_MAX as int, FX_ONE as int);
    }
}

/// Pan law at the extremes and at the center, for an audible track: panned
/// fully left the gain pair is `(level, 0)`, fully right `(0, level)`, and at
/// center both channels carry the level unchanged.
pub proof fn lemma_pan_law(m: MixerState, track: int)
    requires
        m.inv(),
        0 <= track < TRACK_COUNT,
        !m.mutes@[track],
        !m.any_solo(),
    ensures
        m.pans@[track] == -FX_ONE ==> m.gain_left(track) == m.levels@[track]
            && m.gain_right(track) == 0,
        m.pans@[track] == FX_ONE ==> m.gain_left(track) == 0 && m.gain_right(track)
            == m.levels@[track],
        m.pans@[track] == 0 ==> m.gain_left(track) == m.levels@[track] && m.gain_right(track)
            == m.levels@[track],
{
    let level = m.levels@[track] as int;
    let pan = m.pans@[track] as int;
    if pan == -FX_ONE || pan == FX_ONE || pan == 0 {
        lemma_level_factor_bound(level, FX_ONE as int);
        lemma_level_factor_bound(level, 0);
    }
}

/// A muted track contributes nothing to either channel, whatever its level,
/// pan or the solo state.
pub proof fn lemma_mute_silences(m: MixerState, track: int)
    requires
        m.inv(),
        0 <= track < TRACK_COUNT,
        m.mutes@[track],
    ensures
        m.gain_left(track) == 0,
        m.gain_right(track) == 0,
{
}

/// While any track is soloed, every non-soloed track is silenced.
pub proof fn lemma_solo_silences_others(m: MixerState, track: int)
    requires
        m.inv(),
        0 <= track < TRACK_COUNT,
        m.any_solo(),
        !m.solos@[track],
    ensures
        m.gain_left(track) == 0,
        m.gain_right(track) == 0,
{
}

} // verus!
