//! Polyphonic voice allocator: a fixed pool of slots, reusing the slot that
//! already holds a note, then the first free slot, and stealing the oldest
//! active slot when the pool is full.

use vstd::prelude::*;

verus! {

#[derive(Clone, Copy)]
pub struct Voice {
    pub note: u8,
    pub active: bool,
    pub age: u64,
}

pub open spec fn holds_note(v: Voice, note: u8) -> bool {
    v.active && v.note == note
}

/// `i` is the first slot holding `note`.
pub open spec fn is_first_holder(s: Seq<Voice>, note: u8, i: int) -> bool {
    &&& 0 <= i < s.len()
    &&& holds_note(s[i], note)
    &&& forall|j: int| 0 <= j < i ==> !holds_note(#[trigger] s[j], note)
}

pub open spec fn has_holder(s: Seq<Voice>, note: u8) -> bool {
    exists|i: int| 0 <= i < s.len() && holds_note(#[trigger] s[i], note)
}

/// `i` is the first inactive slot.
pub open spec fn is_first_free(s: Seq<Voice>, i: int) -> bool {
    &&& 0 <= i < s.len()
    &&& !s[i].active
    &&& forall|j: int| 0 <= j < i ==> (#[trigger] s[j]).active
}

pub open spec fn has_free(s: Seq<Voice>) -> bool {
    exists|i: int| 0 <= i < s.len() && !(#[trigger] s[i]).active
}

/// `i` is the first slot of minimal age: every earlier slot is strictly
/// younger-numbered out (has a larger age) and no slot anywhere is older.
pub open spec fn is_first_oldest(s: Seq<Voice>, i: int) -> bool {
    &&& 0 <= i < s.len()
    &&& forall|j: int| 0 <= j < s.len() ==> (#[trigger] s[j]).age >= s[i].age
    &&& forall|j: int| 0 <= j < i ==> (#[trigger] s[j]).age > s[i].age
}

/// The largest age in the pool.
pub open spec fn max_age(s: Seq<Voice>) -> int
    decreases s.len(),
{
    if s.len() == 0 {
        0
    } else if s.last().age >= max_age(s.drop_last()) {
        s.last().age as int
    } else {
        max_age(s.drop_last())
    }
}

/// The age stamped on the slot taken by a `note_on`: one beyond the largest
/// age seen so far, saturating at the integer limit.
pub open spec fn next_age(s: Seq<Voice>) -> int {
    if max_age(s) < u64::MAX {
        max_age(s) + 1
    } else {
        u64::MAX as int
    }
}

pub struct VoiceAllocator {
    pub voices: Vec<Voice>,
    pub max_voices: usize,
}

impl VoiceAllocator {
    pub open spec fn inv(self) -> bool {
        &&& self.voices@.len() == self.max_voices
        &&& self.max_voices >= 1
    }

    pub fn new(max_voices: usize) -> (a: VoiceAllocator)
        requires
            max_voices >= 1,
        ensures
            a.inv(),
            a.max_voices == max_voices,
            forall|i: int|
                0 <= i < max_voices ==> #[trigger] a.voices@[i] == (Voice {
                    note: 0,
                    active: false,
                    age: 0,
                }),
    {
        let mut voices: Vec<Voice> = Vec::new();
        let mut k: usize = 0;
        while k < max_voices
            invariant
                k <= max_voices,
                voices@.len() == k,
                forall|i: int|
                    0 <= i < k ==> #[trigger] voices@[i] == (Voice {
                        note: 0,
                        active: false,
                        age: 0,
                    }),
            decreases max_voices - k,
        {
            voices.push(Voice { note: 0, active: false, age: 0 });
            k = k + 1;
        }
        VoiceAllocator { voices, max_voices }
    }

    /// One beyond the largest age in the pool, saturating.
    fn current_age(&self) -> (r: u64)
        requires
            self.inv(),
        ensures
            r == next_age(self.voices@),
    {
        let mut m: u64 = 0;
        let mut k: usize = 0;
        while k < self.voices.len()
            invariant
                k <= self.voices@.len(),
                m == max_age(self.voices@.take(k as int)),
            decreases self.voices@.len() - k,
        {
            let age = self.voices[k].age;
            proof {
                assert(self.voices@.take(k + 1 as int).drop_last() =~= self.voices@.take(k as int));
                assert(self.voices@.take(k + 1 as int).last() == self.voices@[k as int]);
            }
            if age > m {
                m = age;
            }
            k = k + 1;
        }
        proof {
            assert(self.voices@.take(self.voices@.len() as int) =~= self.voices@);
        }
        if m < u64::MAX {
            m + 1
        } else {
            m
        }
    }

    /// Allocates a slot for `note` and returns its index: the slot already
    /// holding the note if any, else the first free slot, else the first
    /// oldest slot, which is stolen.
    pub fn note_on(&mut self, note: u8) -> (idx: usize)
        requires
            old(self).inv(),
        ensures
            final(self).inv(),
            final(self).max_voices == old(self).max_voices,
            idx < old(self).max_voices,
            holds_note(final(self).voices@[idx as int], note),
            final(self).voices@[idx as int].age == next_age(old(self).voices@),
            has_holder(old(self).voices@, note) ==> {
                &&& is_first_holder(old(self).voices@, note, idx as int)
                &&& final(self).voices@ == old(self).voices@.update(
                    idx as int,
                    Voice { age: next_age(old(self).voices@) as u64, ..old(self).voices@[idx as int] },
                )
            },
            !has_holder(old(self).voices@, note) && has_free(old(self).voices@) ==> {
                &&& is_first_free(old(self).voices@, idx as int)
                &&& final(self).voices@ == old(self).voices@.update(
                    idx as int,
                    Voice { note, active: true, age: next_age(old(self).voices@) as u64 },
                )
            },
            !has_holder(old(self).voices@, note) && !has_free(old(self).voices@) ==> {
                &&& is_first_oldest(old(self).voices@, idx as int)
                &&& final(self).voices@ == old(self).voices@.update(
                    idx as int,
                    Voice { note, active: true, age: next_age(old(self).voices@) as u64 },
                )
            },
    {
        let age = self.current_age();
        let n = self.voices.len();

        // Reuse the slot that already plays this note.
        let mut k: usize = 0;
        while k < n
            invariant
                self == old(self),
                old(self).inv(),
                n == self.voices@.len(),
                age as int == next_age(old(self).voices@),
                k <= n,
                forall|j: int| 0 <= j < k ==> !holds_note(#[trigger] self.voices@[j], note),
            decreases n - k,
        {
            if self.voices[k].active && self.voices[k].note == note {
                self.voices[k].age = age;
                return k;
            }
            k = k + 1;
        }

        // Take the first free slot.
        let mut k: usize = 0;
        while k < n
            invariant
                self == old(self),
                old(self).inv(),
                n == self.voices@.len(),
                age as int == next_age(old(self).voices@),
                !has_holder(old(self).voices@, note),
                k <= n,
                forall|j: int| 0 <= j < k ==> (#[trigger] self.voices@[j]).active,
            decreases n - k,
        {
            if !self.voices[k].active {
                self.voices[k] = Voice { note, active: true, age };
                return k;
            }
            k = k + 1;
        }

        // Steal the first oldest slot.
        let mut oldest: usize = 0;
        let mut k: usize = 1;
        while k < n
            invariant
                self == old(self),
                old(self).inv(),
                n == self.voices@.len(),
                age as int == next_age(old(self).voices@),
                !has_holder(old(self).voices@, note),
                !has_free(old(self).voices@),
                n >= 1,
                oldest < k <= n,
                forall|j: int|
                    0 <= j < k ==> (#[trigger] self.voices@[j]).age
                        >= self.voices@[oldest as int].age,
                forall|j: int|
                    0 <= j < oldest ==> (#[trigger] self.voices@[j]).age
                        > self.voices@[oldest as int].age,
            decreases n - k,
        {
            if self.voices[k].age < self.voices[oldest].age {
                oldest = k;
            }
            k = k + 1;
        }
        self.voices[oldest] = Voice { note, active: true, age };
        oldest
    }

    /// Releases the slot holding `note`, if any, and reports which it was.
    pub fn note_off(&mut self, note: u8) -> (idx: Option<usize>)
        requires
            old(self).inv(),
        ensures
            final(self).inv(),
            final(self).max_voices == old(self).max_voices,
            match idx {
                Some(i) => {
                    &&& is_first_holder(old(self).voices@, note, i as int)
                    &&& final(self).voices@ == old(self).voices@.update(
                        i as int,
                        Voice { active: false, ..old(self).voices@[i as int] },
                    )
                },
                None => {
                    &&& !has_holder(old(self).voices@, note)
                    &&& final(self).voices@ == old(self).voices@
                },
            },
    {
        let n = self.voices.len();
        let mut k: usize = 0;
        while k < n
            invariant
                self == old(self),
                old(self).inv(),
                n == self.voices@.len(),
                k <= n,
                forall|j: int| 0 <= j < k ==> !holds_note(#[trigger] self.voices@[j], note),
            decreases n - k,
        {
            if self.voices[k].active && self.voices[k].note == note {
                self.voices[k].active = false;
                return Some(k);
            }
            k = k + 1;
        }
        None
    }

    /// The active slots, each with its note, in slot order.
    pub fn active_voices(&self) -> (r: Vec<(usize, u8)>)
        requires
            self.inv(),
        ensures
            forall|m: int|
                0 <= m < r@.len() ==> {
                    &&& 0 <= (#[trigger] r@[m]).0 < self.voices@.len()
                    &&& self.voices@[r@[m].0 as int].active
                    &&& r@[m].1 == self.voices@[r@[m].0 as int].note
                },
            forall|i: int|
                0 <= i < self.voices@.len() && (#[trigger] self.voices@[i]).active ==> exists|m: int|
                    0 <= m < r@.len() && (#[trigger] r@[m]).0 == i,
    {
        let n = self.voices.len();
        let mut r: Vec<(usize, u8)> = Vec::new();
        let mut k: usize = 0;
        while k < n
            invariant
                n == self.voices@.len(),
                k <= n,
                forall|m: int|
                    0 <= m < r@.len() ==> {
                        &&& 0 <= (#[trigger] r@[m]).0 < self.voices@.len()
                        &&& self.voices@[r@[m].0 as int].active
                        &&& r@[m].1 == self.voices@[r@[m].0 as int].note
                    },
                forall|i: int|
                    0 <= i < k && (#[trigger] self.voices@[i]).active ==> exists|m: int|
                        0 <= m < r@.len() && (#[trigger] r@[m]).0 == i,
            decreases n - k,
        {
            if self.voices[k].active {
                let note = self.voices[k].note;
                let ghost prev = r@;
                r.push((k, note));
                proof {
                    assert forall|i: int|
                        0 <= i < k + 1 && (#[trigger] self.voices@[i]).active implies exists|m: int|
                        0 <= m < r@.len() && (#[trigger] r@[m]).0 == i by {
                        if i < k {
                            let m = choose|m: int|
                                0 <= m < prev.len() && (#[trigger] prev[m]).0 == i;
                            assert(r@[m].0 == i);
                        } else {
                            assert(r@[r@.len() - 1].0 == i);
                        }
                    }
                }
            }
            k = k + 1;
        }
        r
    }
}

} // verus!
