//! RMS / peak level metering for telemetry.

use vstd::prelude::*;

use crate::fx::{abs_spec, div_pos};

verus! {

/// Largest sample magnitude a meter accepts.
pub const METER_IN_MAX: i64 = 0x100_0000_0000;

/// Largest push count a meter accepts between RMS reports.
pub const METER_MAX_COUNT: u64 = 0x1_0000_0000;

/// Integer square root: the largest `r` with `r * r <= x`.
pub fn isqrt(x: u128) -> (r: u64)
    requires
        x < 0x4000_0000_0000_0000_0000_0000_0000_0000u128,
    ensures
        r * r <= x,
        x < (r + 1) * (r + 1),
        r < 0x8000_0000_0000_0000,
{
    let mut lo: u64 = 0;
    let mut hi: u64 = 0x8000_0000_0000_0000;
    proof {
        assert((hi as u128) * (hi as u128) > x) by (nonlinear_arith)
            requires
                hi == 0x8000_0000_0000_0000u64,
                x < 0x4000_0000_0000_0000_0000_0000_0000_0000u128,
        ;
    }
    while hi - lo > 1
        invariant
            lo < hi,
            (lo as u128) * (lo as u128) <= x,
            x < (hi as u128) * (hi as u128),
            hi <= 0x8000_0000_0000_0000,
        decreases hi - lo,
    {
        let mid = lo + (hi - lo) / 2;
        proof {
            assert((mid as u128) * (mid as u128) <= 0x4000_0000_0000_0000_0000_0000_0000_0000u128)
                by (nonlinear_arith)
                requires
                    mid <= 0x8000_0000_0000_0000u64,
            ;
        }
        let sq = (mid as u128) * (mid as u128);
        if sq <= x {
            lo = mid;
        } else {
            hi = mid;
        }
    }
    proof {
        assert(lo as u128 + 1 == hi as u128);
        assert((lo as u128 + 1) * (lo as u128 + 1) == (hi as u128) * (hi as u128));
    }
    lo
}

/// Accumulates a sum of squares for RMS reporting and a decaying peak.
pub struct LevelMeter {
    pub sum_sq: u128,
    pub count: u64,
    pub peak: i64,
}

/// A meter after absorbing one sample.
pub open spec fn meter_pushed(m: LevelMeter, s: int) -> LevelMeter {
    LevelMeter {
        sum_sq: (m.sum_sq + s * s) as u128,
        count: (m.count + 1) as u64,
        peak: (if abs_spec(s) > m.peak {
            abs_spec(s)
        } else {
            m.peak as int
        }) as i64,
    }
}

impl LevelMeter {
    pub open spec fn inv(self) -> bool {
        &&& self.sum_sq <= (self.count as int) * (METER_IN_MAX as int) * (METER_IN_MAX as int)
        &&& self.count <= METER_MAX_COUNT
        &&& 0 <= self.peak <= METER_IN_MAX
    }

    pub fn new() -> (m: LevelMeter)
        ensures
            m.inv(),
            m.sum_sq == 0,
            m.count == 0,
            m.peak == 0,
    {
        LevelMeter { sum_sq: 0, count: 0, peak: 0 }
    }

    /// Accumulates one sample's square and tracks the absolute peak.
    pub fn push(&mut self, sample: i64)
        requires
            old(self).inv(),
            -METER_IN_MAX <= sample <= METER_IN_MAX,
            old(self).count < METER_MAX_COUNT,
        ensures
            final(self).inv(),
            *final(self) == meter_pushed(*old(self), sample as int),
            final(self).sum_sq == old(self).sum_sq + (sample as int) * (sample as int),
            final(self).count == old(self).count + 1,
            final(self).peak == if abs_spec(sample as int) > old(self).peak {
                abs_spec(sample as int)
            } else {
                old(self).peak as int
            },
    {
        proof {
            assert((sample as int) * (sample as int)
                <= (METER_IN_MAX as int) * (METER_IN_MAX as int) && (sample as int) * (
            sample as int) >= 0) by (nonlinear_arith)
                requires
                    -METER_IN_MAX <= sample <= METER_IN_MAX,
            ;
            assert(self.sum_sq + (sample as int) * (sample as int) <= (self.count as int
                + 1) * (METER_IN_MAX as int) * (METER_IN_MAX as int)) by (nonlinear_arith)
                requires
                    self.sum_sq <= (self.count as int) * (METER_IN_MAX as int) * (
                    METER_IN_MAX as int),
                    (sample as int) * (sample as int) <= (METER_IN_MAX as int) * (
                    METER_IN_MAX as int),
            ;
            assert((self.count as int + 1) * (METER_IN_MAX as int) * (METER_IN_MAX as int)
                <= 0x1_0000_0001int * 0x100_0000_0000 * 0x100_0000_0000)
                by (nonlinear_arith)
                requires
                    self.count < 0x1_0000_0000u64,
            ;
        }
        let s128 = (if sample >= 0 {
            sample
        } else {
            -sample
        }) as u128;
        proof {
            assert(s128 * s128 == (sample as int) * (sample as int) && s128 * s128 <= (
            METER_IN_MAX as int) * (METER_IN_MAX as int)) by (nonlinear_arith)
                requires
                    s128 == abs_spec(sample as int),
                    -METER_IN_MAX <= sample <= METER_IN_MAX,
            ;
        }
        self.sum_sq = self.sum_sq + s128 * s128;
        self.count = self.count + 1;
        let a = if sample >= 0 {
            sample
        } else {
            -sample
        };
        if a > self.peak {
            self.peak = a;
        }
    }

    /// The root-mean-square level since the last report; resets the
    /// accumulator.
    pub fn take_rms(&mut self) -> (r: i64)
        requires
            old(self).inv(),
        ensures
            final(self).inv(),
            final(self).sum_sq == 0,
            final(self).count == 0,
            final(self).peak == old(self).peak,
            old(self).count == 0 ==> r == 0,
            old(self).count > 0 ==> {
                &&& (r as int) * (r as int) <= old(self).sum_sq as int / old(self).count as int
                &&& (old(self).sum_sq as int / old(self).count as int) < (r + 1) * (r + 1)
            },
    {
        if self.count == 0 {
            self.sum_sq = 0;
            return 0;
        }
        let mean = self.sum_sq / (self.count as u128);
        proof {
            vstd::arithmetic::div_mod::lemma_div_is_ordered(
                mean as int,
                self.sum_sq as int,
                1,
            );
            assert(mean <= self.sum_sq) by {
                vstd::arithmetic::div_mod::lemma_div_nonincreasing(
                    self.sum_sq as int,
                    self.count as int,
                );
            }
            assert(self.sum_sq < 0x4000_0000_0000_0000_0000_0000_0000_0000u128) by {
                assert((self.count as int) * (METER_IN_MAX as int) * (METER_IN_MAX as int)
                    <= 0x1_0000_0000int * 0x100_0000_0000 * 0x100_0000_0000)
                    by (nonlinear_arith)
                    requires
                        self.count <= 0x1_0000_0000u64,
                ;
            }
        }
        let root = isqrt(mean);
        self.sum_sq = 0;
        self.count = 0;
        root as i64
    }

    /// The current peak, which then decays by the report-rate factor.
    pub fn take_peak(&mut self) -> (r: i64)
        requires
            old(self).inv(),
        ensures
            final(self).inv(),
            r == old(self).peak,
            final(self).peak == (old(self).peak as int) * 995 / 1000,
            final(self).sum_sq == old(self).sum_sq,
            final(self).count == old(self).count,
    {
        let p = self.peak;
        let scaled = p * 995;
        self.peak = div_pos(scaled, 1000);
        proof {
            vstd::arithmetic::div_mod::lemma_div_is_ordered(
                (p as int) * 995,
                (METER_IN_MAX as int) * 1000,
                1000,
            );
            assert((METER_IN_MAX as int) * 1000 / 1000 == METER_IN_MAX as int) by {
                vstd::arithmetic::div_mod::lemma_div_by_multiple(METER_IN_MAX as int, 1000);
            }
            assert((p as int) * 995 <= (METER_IN_MAX as int) * 1000) by (nonlinear_arith)
                requires
                    0 <= p <= METER_IN_MAX,
            ;
        }
        p
    }
}

} // verus!
