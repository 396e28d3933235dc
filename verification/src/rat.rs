//! Exact rational arithmetic for the navigation state.
//!
//! The viewer's center coordinates move by steps of `0.1 * zoom`, where
//! `zoom` is `3 * (11/10)^e` for an integer exponent `e`.  Every value the
//! state can reach is therefore an exact rational; this module holds the
//! small rational type the state stores and its checked addition.

use vstd::prelude::*;

verus! {

/// An exact rational `num / den` with a positive denominator.
///
/// Values are kept unreduced: the operations state exactly which numerator
/// and denominator come out, and equality of values is `rat_eq`.
#[derive(Clone, Copy, PartialEq, Eq, Structural, Debug)]
pub struct Rat {
    pub num: i64,
    pub den: i64,
}

/// Well-formedness: the denominator is positive.
pub open spec fn rat_wf(r: Rat) -> bool {
    r.den >= 1
}

/// `a` and `b` denote the same rational value (cross multiplication).
pub open spec fn rat_eq(a: Rat, b: Rat) -> bool {
    a.num * b.den == b.num * a.den
}

/// Whether adding the rational `n / d` to `a`, unreduced, stays within `i64`.
pub open spec fn add_fits(a: Rat, n: int, d: int) -> bool {
    &&& i64::MIN <= a.num * d + n * a.den <= i64::MAX
    &&& a.den * d <= i64::MAX
}

/// The unreduced sum `a + n / d`, assuming it fits.
pub open spec fn rat_after_add(a: Rat, n: int, d: int) -> Rat {
    Rat { num: (a.num * d + n * a.den) as i64, den: (a.den * d) as i64 }
}

impl Rat {
    /// Adds the rational `n / d` to `self` exactly, unreduced; `None` when
    /// the resulting numerator or denominator would not fit in `i64`.
    pub fn add_checked(self, n: i64, d: i64) -> (r: Option<Rat>)
        requires
            rat_wf(self),
            d >= 1,
        ensures
            r is Some <==> add_fits(self, n as int, d as int),
            r matches Some(v) ==> v == rat_after_add(self, n as int, d as int),
            r matches Some(v) ==> rat_wf(v),
    {
        proof {
            assert(-0x8000_0000_0000_0000 * 0x7fff_ffff_ffff_ffff
                <= (self.num as int) * (d as int)
                <= 0x8000_0000_0000_0000 * 0x7fff_ffff_ffff_ffff)
                by (nonlinear_arith)
                requires
                    -0x8000_0000_0000_0000 <= self.num as int <= 0x7fff_ffff_ffff_ffff,
                    1 <= d as int <= 0x7fff_ffff_ffff_ffff;
            assert(-0x8000_0000_0000_0000 * 0x7fff_ffff_ffff_ffff
                <= (n as int) * (self.den as int)
                <= 0x8000_0000_0000_0000 * 0x7fff_ffff_ffff_ffff)
                by (nonlinear_arith)
                requires
                    -0x8000_0000_0000_0000 <= n as int <= 0x7fff_ffff_ffff_ffff,
                    1 <= self.den as int <= 0x7fff_ffff_ffff_ffff;
            assert(1 <= (self.den as int) * (d as int)
                && (self.den as int) * (d as int) <= 0x7fff_ffff_ffff_ffff * 0x7fff_ffff_ffff_ffff)
                by (nonlinear_arith)
                requires
                    1 <= self.den as int <= 0x7fff_ffff_ffff_ffff,
                    1 <= d as int <= 0x7fff_ffff_ffff_ffff;
        }
        let p: i128 = (self.num as i128) * (d as i128) + (n as i128) * (self.den as i128);
        let q: i128 = (self.den as i128) * (d as i128);
        if p >= i64::MIN as i128 && p <= i64::MAX as i128 && q <= i64::MAX as i128 {
            Some(Rat { num: p as i64, den: q as i64 })
        } else {
            None
        }
    }
}

} // verus!
