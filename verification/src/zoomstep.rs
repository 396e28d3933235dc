//! The zoom level and the exact pan step it induces.
//!
//! The zoom is never stored as an approximate number: the state keeps the
//! integer exponent `e` with `zoom = 3 * (11/10)^e`.  Zooming multiplies or
//! divides by `11/10`, so the exponent moves by one.  The center moves by
//! `0.1 * zoom`, an exact rational computed here.

use vstd::prelude::*;
use vstd::arithmetic::power::{pow, lemma_pow_positive, lemma_pow_adds, lemma_pow1, lemma_pow_increases};
use vstd::arithmetic::div_mod::{lemma_fundamental_div_mod, lemma_mod_division_less_than_divisor};

verus! {

/// Numerator of the zoom value `3 * (11/10)^e`.
pub open spec fn zoom_num(e: int) -> int {
    if e >= 0 {
        3 * pow(11, e as nat)
    } else {
        3 * pow(10, (-e) as nat)
    }
}

/// Denominator of the zoom value `3 * (11/10)^e`.
pub open spec fn zoom_den(e: int) -> int {
    if e >= 0 {
        pow(10, e as nat)
    } else {
        pow(11, (-e) as nat)
    }
}

/// Numerator of the center step `0.1 * zoom` at exponent `e`.
pub open spec fn step_num(e: int) -> int {
    zoom_num(e)
}

/// Denominator of the center step `0.1 * zoom` at exponent `e`.
pub open spec fn step_den(e: int) -> int {
    10 * zoom_den(e)
}

/// The zoom value at every exponent is a ratio of two positive integers,
/// so it is strictly positive; likewise the center step.
pub proof fn lemma_zoom_positive(e: int)
    ensures
        zoom_num(e) >= 1,
        zoom_den(e) >= 1,
        step_num(e) >= 1,
        step_den(e) >= 1,
{
    if e >= 0 {
        lemma_pow_positive(11, e as nat);
        lemma_pow_positive(10, e as nat);
    } else {
        lemma_pow_positive(10, (-e) as nat);
        lemma_pow_positive(11, (-e) as nat);
    }
}

/// Whether the exact step at exponent `e` fits in `i64` numerator and
/// denominator.  Outside this range a pan cannot be represented and is
/// reported as "unchanged".
pub open spec fn step_fits(e: int) -> bool {
    step_num(e) <= i64::MAX && step_den(e) <= i64::MAX
}

/// `base^e`, or `None` when the value exceeds `i64::MAX`.
fn pow_checked(base: u64, e: u32) -> (r: Option<i64>)
    requires
        2 <= base <= 11,
    ensures
        r matches Some(v) ==> v as int == pow(base as int, e as nat) && v >= 1,
        r is None ==> pow(base as int, e as nat) > i64::MAX,
{
    proof {
        vstd::arithmetic::power::lemma_pow0(base as int);
    }
    let mut acc: u64 = 1;
    let mut i: u32 = 0;
    while i < e
        invariant
            2 <= base <= 11,
            i <= e,
            acc as int == pow(base as int, i as nat),
            1 <= acc <= i64::MAX as u64,
        decreases e - i,
    {
        proof {
            lemma_pow1(base as int);
            lemma_pow_adds(base as int, i as nat, 1);
            assert(pow(base as int, (i + 1) as nat) == acc as int * base as int);
        }
        if acc > (i64::MAX as u64) / base {
            proof {
                let m = i64::MAX as int;
                let b = base as int;
                lemma_fundamental_div_mod(m, b);
                lemma_mod_division_less_than_divisor(m, b);
                assert(acc as int * b > m) by (nonlinear_arith)
                    requires
                        acc as int >= m / b + 1,
                        b >= 2,
                        m == b * (m / b) + m % b,
                        0 <= m % b < b;
                lemma_pow_increases(base as nat, (i + 1) as nat, e as nat);
            }
            return None;
        }
        proof {
            let m = i64::MAX as int;
            let b = base as int;
            lemma_fundamental_div_mod(m, b);
            lemma_mod_division_less_than_divisor(m, b);
            assert(1 <= acc as int * b <= m) by (nonlinear_arith)
                requires
                    1 <= acc as int,
                    acc as int <= m / b,
                    2 <= b,
                    m == b * (m / b) + m % b,
                    0 <= m % b < b;
        }
        acc = acc * base;
        i = i + 1;
    }
    Some(acc as i64)
}

/// The exact center step `0.1 * zoom` at exponent `e`, as an `i64`
/// numerator and denominator; `None` exactly when it does not fit.
pub fn zoom_step(e: i32) -> (r: Option<(i64, i64)>)
    ensures
        r is Some <==> step_fits(e as int),
        r matches Some(v) ==> v.0 as int == step_num(e as int)
            && v.1 as int == step_den(e as int)
            && v.0 >= 1
            && v.1 >= 1,
{
    proof {
        lemma_zoom_positive(e as int);
    }
    let (pn, pd) = if e >= 0 {
        (pow_checked(11, e as u32), pow_checked(10, e as u32))
    } else {
        let k: u32 = (-(e as i64)) as u32;
        (pow_checked(10, k), pow_checked(11, k))
    };
    match (pn, pd) {
        (Some(n1), Some(d1)) => {
            let n3: i128 = 3 * (n1 as i128);
            let d10: i128 = 10 * (d1 as i128);
            if n3 <= i64::MAX as i128 && d10 <= i64::MAX as i128 {
                Some((n3 as i64, d10 as i64))
            } else {
                None
            }
        },
        _ => {
            proof {
                let ei = e as int;
                if pn is None {
                    assert(step_num(ei) > i64::MAX);
                }
                if pd is None {
                    assert(step_den(ei) > i64::MAX);
                }
            }
            None
        },
    }
}

} // verus!
