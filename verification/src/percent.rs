//! Percentages in fixed point.
//!
//! A [`Percent`] counts hundredths of a percent, so `10_000` stands for 100 %.
//! Every percentage that the library computes lies between 0 % and 100 %,
//! and a share of an empty whole is 0 %.

use vstd::prelude::*;

verus! {

/// The number of hundredths of a percent in 100 %.
pub const FULL_SCALE: u32 = 10_000;

/// A percentage, held as a whole number of hundredths of a percent.
#[derive(Clone, Copy, Debug, PartialEq, Eq, Structural)]
pub struct Percent {
    /// Hundredths of a percent: `1` is 0.01 %, `10_000` is 100 %.
    pub hundredths: u32,
}

impl Percent {
    /// The percentage lies between 0 % and 100 %.
    pub open spec fn in_range(self) -> bool {
        self.hundredths <= FULL_SCALE
    }

    /// The share that `part` has of `whole`, rounded down to a hundredth of a
    /// percent. An empty whole gives 0 %, and a part that is no smaller than
    /// the whole gives 100 %.
    pub open spec fn ratio(part: nat, whole: nat) -> Percent {
        if whole == 0 {
            Percent { hundredths: 0 }
        } else if part >= whole {
            Percent { hundredths: FULL_SCALE }
        } else {
            Percent { hundredths: ((part * FULL_SCALE) / (whole as int)) as u32 }
        }
    }

    /// The value that `from_hundredths` gives: `hundredths`, or 100 % where it
    /// is larger.
    pub open spec fn clamped(hundredths: nat) -> Percent {
        if hundredths >= FULL_SCALE {
            Percent { hundredths: FULL_SCALE }
        } else {
            Percent { hundredths: hundredths as u32 }
        }
    }

    /// Every ratio lies between 0 % and 100 %, a ratio below 100 % is the
    /// exact quotient rounded down, and the share of an empty whole is 0 %.
    pub proof fn lemma_ratio_in_range(part: nat, whole: nat)
        ensures
            Self::ratio(part, whole).in_range(),
            whole == 0 ==> Self::ratio(part, whole).hundredths == 0,
            0 < whole && part < whole ==> {
                &&& Self::ratio(part, whole).hundredths == (part * FULL_SCALE) / (whole as int)
                &&& Self::ratio(part, whole).hundredths < FULL_SCALE
            },
    {
        if 0 < whole && part < whole {
            Self::lemma_quotient_below_scale(part, whole);
        }
    }

    /// A proper share, scaled, stays below the scale.
    proof fn lemma_quotient_below_scale(part: nat, whole: nat)
        requires
            0 < whole,
            part < whole,
        ensures
            0 <= (part * FULL_SCALE) / (whole as int) < FULL_SCALE,
    {
        assert(0 <= (part as int * 10_000) / (whole as int) < 10_000) by (nonlinear_arith)
            requires
                0 < whole,
                part < whole,
        ;
    }

    /// 0 %.
    pub fn zero() -> (r: Self)
        ensures
            r.hundredths == 0,
            r.in_range(),
    {
        Percent { hundredths: 0 }
    }

    /// 100 %.
    pub fn full() -> (r: Self)
        ensures
            r.hundredths == FULL_SCALE,
            r.in_range(),
    {
        Percent { hundredths: FULL_SCALE }
    }

    /// The percentage of `hundredths` hundredths of a percent, held to 100 %
    /// where the argument is larger.
    pub fn from_hundredths(hundredths: u32) -> (r: Self)
        ensures
            r == Self::clamped(hundredths as nat),
            r.in_range(),
    {
        if hundredths >= FULL_SCALE {
            Percent { hundredths: FULL_SCALE }
        } else {
            Percent { hundredths }
        }
    }

    /// The share that `part` has of `whole`.
    pub fn of(part: u64, whole: u64) -> (r: Self)
        ensures
            r == Self::ratio(part as nat, whole as nat),
            r.in_range(),
            whole == 0 ==> r.hundredths == 0,
    {
        if whole == 0 {
            Percent { hundredths: 0 }
        } else if part >= whole {
            Percent { hundredths: FULL_SCALE }
        } else {
            proof {
                Self::lemma_quotient_below_scale(part as nat, whole as nat);
            }
            let scaled: u128 = (part as u128) * (FULL_SCALE as u128);
            let quotient: u128 = scaled / (whole as u128);
            Percent { hundredths: quotient as u32 }
        }
    }

    /// The number of hundredths of a percent.
    pub fn hundredths(&self) -> (h: u32)
        ensures
            h == self.hundredths,
    {
        self.hundredths
    }

    /// The whole percents, the fraction dropped.
    pub fn whole_percent(&self) -> (w: u32)
        ensures
            w == self.hundredths / 100,
    {
        self.hundredths / 100
    }
}

} // verus!
