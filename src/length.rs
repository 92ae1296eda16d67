//! Physical lengths and their conversion to English Metric Units.
use vstd::prelude::*;

verus! {

pub const EMUS_PER_INCH: u64 = 914400;

pub const EMUS_PER_CM: u64 = 360000;

pub const EMUS_PER_MM: u64 = 36000;

pub const EMUS_PER_PT: u64 = 12700;

pub const EMUS_PER_TWIP: u64 = 635;

/// A length in one unit. Each variant holds the exact quantity as a
/// fraction `(numerator, denominator)` of that unit.
#[derive(Debug, Clone, Copy, PartialEq, Eq, Structural)]
pub enum Length {
    Emu(u64, u64),
    Inches(u64, u64),
    Cm(u64, u64),
    Mm(u64, u64),
    Pt(u64, u64),
    Twips(u64, u64),
}

/// The largest value a length converts to; larger quantities saturate here.
pub open spec fn emu_limit() -> int {
    u32::MAX as int
}

/// `num / den` units of `per` EMU each, truncated towards zero and saturated
/// to the `u32` range. A zero denominator gives 0 for a zero numerator and
/// the saturated maximum otherwise.
pub open spec fn scaled_emus(num: int, den: int, per: int) -> int {
    if den == 0 {
        if num == 0 {
            0
        } else {
            emu_limit()
        }
    } else if num * per / den > emu_limit() {
        emu_limit()
    } else {
        num * per / den
    }
}

impl Length {
    /// How many EMU one unit of this length is.
    pub open spec fn emus_per_unit(self) -> int {
        match self {
            Length::Emu(_, _) => 1,
            Length::Inches(_, _) => EMUS_PER_INCH as int,
            Length::Cm(_, _) => EMUS_PER_CM as int,
            Length::Mm(_, _) => EMUS_PER_MM as int,
            Length::Pt(_, _) => EMUS_PER_PT as int,
            Length::Twips(_, _) => EMUS_PER_TWIP as int,
        }
    }

    pub open spec fn numerator(self) -> int {
        match self {
            Length::Emu(n, _) | Length::Inches(n, _) | Length::Cm(n, _) | Length::Mm(n, _)
            | Length::Pt(n, _) | Length::Twips(n, _) => n as int,
        }
    }

    pub open spec fn denominator(self) -> int {
        match self {
            Length::Emu(_, d) | Length::Inches(_, d) | Length::Cm(_, d) | Length::Mm(_, d)
            | Length::Pt(_, d) | Length::Twips(_, d) => d as int,
        }
    }

    /// The length in EMU, truncated.
    pub open spec fn spec_value(self) -> int {
        scaled_emus(self.numerator(), self.denominator(), self.emus_per_unit())
    }

    fn per_unit(&self) -> (r: u64)
        ensures
            r == self.emus_per_unit(),
    {
        match self {
            Length::Emu(_, _) => 1,
            Length::Inches(_, _) => EMUS_PER_INCH,
            Length::Cm(_, _) => EMUS_PER_CM,
            Length::Mm(_, _) => EMUS_PER_MM,
            Length::Pt(_, _) => EMUS_PER_PT,
            Length::Twips(_, _) => EMUS_PER_TWIP,
        }
    }

    /// The length in EMU: the quantity times the unit's multiplier, truncated.
    pub fn value(&self) -> (r: u32)
        ensures
            r == self.spec_value(),
    {
        let (num, den) = match self {
            Length::Emu(n, d) | Length::Inches(n, d) | Length::Cm(n, d) | Length::Mm(n, d)
            | Length::Pt(n, d) | Length::Twips(n, d) => (*n, *d),
        };
        let per = self.per_unit();
        if den == 0 {
            if num == 0 {
                0
            } else {
                u32::MAX
            }
        } else {
            assert((num as int) * (per as int) <= (u64::MAX as int) * (u64::MAX as int))
                by (nonlinear_arith)
                requires
                    num <= u64::MAX,
                    per <= u64::MAX,
            ;
            let product: u128 = (num as u128) * (per as u128);
            let q: u128 = product / (den as u128);
            if q > u32::MAX as u128 {
                u32::MAX
            } else {
                q as u32
            }
        }
    }
}

impl Default for Length {
    /// Zero EMU.
    fn default() -> (r: Length)
        ensures
            r == Length::Emu(0, 1),
    {
        Length::Emu(0, 1)
    }
}

} // verus!
