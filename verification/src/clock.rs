//! Sample-accurate sequencer clock: the current 16th-note step is derived
//! purely from the absolute sample position and the tempo, so sequencing is
//! deterministic under seeks and loops and cannot drift.

use vstd::prelude::*;

use crate::constants::{SAMPLE_RATE_SAMPLES, STEP_COUNT};

verus! {

pub const MIN_BPM: u32 = 40;

pub const MAX_BPM: u32 = 300;

/// Samples per beat at the given tempo.
pub open spec fn samples_per_beat(bpm: u32) -> int {
    SAMPLE_RATE_SAMPLES * 60 / bpm as int
}

/// Samples per 16th-note step at the given tempo.
pub open spec fn samples_per_step(bpm: u32) -> int {
    samples_per_beat(bpm) / 4
}

/// The step a sample position falls on: a pure function of tempo and
/// position.
pub open spec fn step_of(bpm: u32, pos: usize) -> int {
    (pos as int / samples_per_step(bpm)) % (STEP_COUNT as int)
}

/// Whether a tick at `pos` reports a step boundary, given the step stored by
/// the previous tick.
pub open spec fn reports_new_step(last: Option<usize>, bpm: u32, pos: usize) -> bool {
    match last {
        None => true,
        Some(s) => s as int != step_of(bpm, pos),
    }
}

pub proof fn lemma_samples_per_step_positive(bpm: u32)
    requires
        MIN_BPM <= bpm <= MAX_BPM,
    ensures
        2205 <= samples_per_step(bpm) <= 16537,
{
    vstd::arithmetic::div_mod::lemma_div_is_ordered_by_denominator(
        SAMPLE_RATE_SAMPLES * 60,
        MIN_BPM as int,
        bpm as int,
    );
    vstd::arithmetic::div_mod::lemma_div_is_ordered_by_denominator(
        SAMPLE_RATE_SAMPLES * 60,
        bpm as int,
        MAX_BPM as int,
    );
}

pub struct SequencerClock {
    pub bpm: u32,
    /// Step seen by the previous tick; `None` right after a reset, which
    /// forces the next tick to report a step boundary.
    pub last_step: Option<usize>,
}

impl SequencerClock {
    pub open spec fn inv(self) -> bool {
        MIN_BPM <= self.bpm <= MAX_BPM
    }

    pub fn new(bpm: u32) -> (c: SequencerClock)
        ensures
            c.inv(),
            c.bpm == crate::fx::clamp_spec(bpm as int, MIN_BPM as int, MAX_BPM as int),
            c.last_step is None,
    {
        let clamped = if bpm < MIN_BPM {
            MIN_BPM
        } else if bpm > MAX_BPM {
            MAX_BPM
        } else {
            bpm
        };
        SequencerClock { bpm: clamped, last_step: None }
    }

    /// Sets the tempo, clamped into `[MIN_BPM, MAX_BPM]`.
    pub fn set_bpm(&mut self, bpm: u32)
        ensures
            final(self).inv(),
            final(self).bpm == crate::fx::clamp_spec(bpm as int, MIN_BPM as int, MAX_BPM as int),
            final(self).last_step == old(self).last_step,
    {
        self.bpm = if bpm < MIN_BPM {
            MIN_BPM
        } else if bpm > MAX_BPM {
            MAX_BPM
        } else {
            bpm
        };
    }

    pub fn bpm(&self) -> (r: u32)
        ensures
            r == self.bpm,
    {
        self.bpm
    }

    /// Derives the current step from the sample position and reports whether
    /// it differs from the step of the previous tick.
    pub fn tick(&mut self, sample_position: usize) -> (r: (usize, bool))
        requires
            old(self).inv(),
        ensures
            final(self).inv(),
            final(self).bpm == old(self).bpm,
            r.0 == step_of(old(self).bpm, sample_position),
            r.0 < STEP_COUNT,
            r.1 == reports_new_step(old(self).last_step, old(self).bpm, sample_position),
            final(self).last_step == Some(r.0),
    {
        proof {
            lemma_samples_per_step_positive(self.bpm);
        }
        let samples_per_beat: usize = SAMPLE_RATE_SAMPLES * 60 / (self.bpm as usize);
        let samples_per_step: usize = samples_per_beat / 4;
        let step = (sample_position / samples_per_step) % STEP_COUNT;
        let new_step = match self.last_step {
            Some(last) => step != last,
            None => true,
        };
        self.last_step = Some(step);
        (step, new_step)
    }

    /// Forces the next tick to report a step boundary.
    pub fn reset(&mut self)
        ensures
            final(self).bpm == old(self).bpm,
            final(self).last_step is None,
    {
        self.last_step = None;
    }
}

/// The step reported by a tick depends on the tempo and the position alone.
/// After a reset the first tick at any position reports a new step, and an
/// immediately repeated tick at the same position and tempo does not.
pub proof fn lemma_tick_new_step_once(bpm: u32, pos: usize)
    requires
        MIN_BPM <= bpm <= MAX_BPM,
    ensures
        reports_new_step(None, bpm, pos),
        0 <= step_of(bpm, pos) < STEP_COUNT,
        !reports_new_step(Some(step_of(bpm, pos) as usize), bpm, pos),
{
    lemma_samples_per_step_positive(bpm);
}

} // verus!
