//! 16-step trigger patterns, one per drum instrument.

use vstd::prelude::*;

use crate::constants::STEP_COUNT;

verus! {

/// A 16-step on/off pattern for a single instrument.
#[derive(Clone)]
pub struct Pattern {
    pub steps: [bool; STEP_COUNT],
}

impl Pattern {
    pub fn new() -> (p: Pattern)
        ensures
            forall|i: int| 0 <= i < STEP_COUNT ==> !#[trigger] p.steps@[i],
    {
        Pattern {
            steps: [
                false,
                false,
                false,
                false,
                false,
                false,
                false,
                false,
                false,
                false,
                false,
                false,
                false,
                false,
                false,
                false,
            ],
        }
    }

    /// Flips one step; indices past the pattern end are ignored.
    pub fn toggle(&mut self, step: usize)
        ensures
            step < STEP_COUNT ==> final(self).steps@ == old(self).steps@.update(
                step as int,
                !old(self).steps@[step as int],
            ),
            step >= STEP_COUNT ==> final(self).steps == old(self).steps,
    {
        if step < STEP_COUNT {
            let cur = self.steps[step];
            self.steps[step] = !cur;
        }
    }

    /// Whether a step is on; indices past the pattern end read as off.
    pub fn is_active(&self, step: usize) -> (r: bool)
        ensures
            r == (step < STEP_COUNT && self.steps@[step as int]),
    {
        step < STEP_COUNT && self.steps[step]
    }
}

/// The patterns of every instrument.
pub struct PatternBank {
    pub patterns: Vec<Pattern>,
}

impl PatternBank {
    pub fn new(instrument_count: usize) -> (b: PatternBank)
        ensures
            b.patterns@.len() == instrument_count,
            forall|k: int, i: int|
                0 <= k < instrument_count && 0 <= i < STEP_COUNT
                    ==> !#[trigger] b.patterns@[k].steps@[i],
    {
        let mut patterns: Vec<Pattern> = Vec::new();
        let mut k: usize = 0;
        while k < instrument_count
            invariant
                k <= instrument_count,
                patterns@.len() == k,
                forall|j: int, i: int|
                    0 <= j < k && 0 <= i < STEP_COUNT ==> !#[trigger] patterns@[j].steps@[i],
            decreases instrument_count - k,
        {
            patterns.push(Pattern::new());
            k = k + 1;
        }
        PatternBank { patterns }
    }
}

} // verus!
