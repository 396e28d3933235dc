//! The escape-time kernels, in exact fixed-point arithmetic.
//!
//! A plane coordinate is held as an `i64` in units of `1 / SCALE`.  One
//! iteration maps `z` to `z^2 + c`, with each component of the square
//! scaled back down by truncation toward zero.  A point escapes at the
//! first iteration whose squared norm exceeds `(2 * SCALE)^2`, the
//! standard escape radius of 2; a point that survives the whole budget is
//! interior and keeps the stable interior color.
//!
//! The Mandelbrot kernel iterates from zero and adds the pixel's own
//! coordinate; the Julia kernel iterates from the pixel's coordinate and
//! adds the stored seed.

use vstd::prelude::*;
use vstd::arithmetic::div_mod::{lemma_fundamental_div_mod, lemma_mod_division_less_than_divisor};
use vstd::arithmetic::mul::lemma_mul_inequality;
use vstd::arithmetic::power::{pow, lemma_pow_positive, lemma_pow0, lemma_pow1, lemma_pow_adds};
use vstd::math::abs;

verus! {

/// Fixed-point scale: coordinate 1.0 is `SCALE` units.
pub const SCALE: i64 = 65536;

/// The squared escape bound `(2 * SCALE)^2`, the escape radius 2.
pub const ESCAPE_NORM2: i64 = 4 * 65536 * 65536;

/// Largest coordinate magnitude the kernel accepts, far outside the
/// drawable plane; it keeps every intermediate product inside `i64`.
pub const COORD_LIMIT: i64 = 1_000_000_000;

/// Magnitude bound the iteration variables never leave.
const ITER_BOUND: i64 = 1_000_524_288;

/// The squared norm of the fixed-point complex number `(x, y)`.
pub open spec fn norm2(x: int, y: int) -> int {
    x * x + y * y
}

/// Scaling a product back down: division by `SCALE` truncated toward
/// zero, as the viewer's single-precision hardware rounding is modeled.
pub open spec fn div_scale(a: int) -> int {
    if a >= 0 {
        a / (SCALE as int)
    } else {
        -((-a) / (SCALE as int))
    }
}

/// Real part of `z^2 + c` in fixed point.
pub open spec fn step_re(x: int, y: int, cx: int) -> int {
    div_scale(x * x - y * y) + cx
}

/// Imaginary part of `z^2 + c` in fixed point.
pub open spec fn step_im(x: int, y: int, cy: int) -> int {
    div_scale(2 * x * y) + cy
}

/// The escape time of `z` under `z -> z^2 + c` with `fuel` iterations of
/// budget: `Some(n)` when the norm first exceeds the escape bound at
/// check `n`, `None` when the point survives the whole budget.
pub open spec fn spec_escape(x: int, y: int, cx: int, cy: int, fuel: nat) -> Option<nat>
    decreases fuel,
{
    if fuel == 0 {
        None
    } else if norm2(x, y) > ESCAPE_NORM2 as int {
        Some(0)
    } else {
        match spec_escape(step_re(x, y, cx), step_im(x, y, cy), cx, cy, (fuel - 1) as nat) {
            Some(n) => Some(n + 1),
            None => None,
        }
    }
}

/// Division by `SCALE`, truncated toward zero.
fn div_scale_exec(a: i64) -> (r: i64)
    requires
        a > i64::MIN,
    ensures
        r as int == div_scale(a as int),
        (if r >= 0 { r as int } else { -(r as int) }) * (SCALE as int)
            <= (if a >= 0 { a as int } else { -(a as int) }),
{
    proof {
        let aa: int = if a >= 0 { a as int } else { -(a as int) };
        lemma_fundamental_div_mod(aa, SCALE as int);
        lemma_mod_division_less_than_divisor(aa, SCALE as int);
        assert((aa / (SCALE as int)) * (SCALE as int) <= aa) by (nonlinear_arith)
            requires
                aa >= 0,
                aa == (SCALE as int) * (aa / (SCALE as int)) + aa % (SCALE as int),
                0 <= aa % (SCALE as int),
        ;
    }
    if a >= 0 {
        ((a as u64) / 65536) as i64
    } else {
        let m = ((-a) as u64) / 65536;
        -(m as i64)
    }
}

/// Runs the escape iteration from `(zx, zy)` with constant `(cx, cy)`:
/// `Some(n)` when the point escapes at iteration `n < max_iter`, `None`
/// when it stays bounded for the whole budget (an interior point).
pub fn escape_time(zx: i64, zy: i64, cx: i64, cy: i64, max_iter: u32) -> (r: Option<u32>)
    requires
        -COORD_LIMIT <= zx <= COORD_LIMIT,
        -COORD_LIMIT <= zy <= COORD_LIMIT,
        -COORD_LIMIT <= cx <= COORD_LIMIT,
        -COORD_LIMIT <= cy <= COORD_LIMIT,
    ensures
        r matches Some(n) ==> n < max_iter
            && spec_escape(zx as int, zy as int, cx as int, cy as int, max_iter as nat)
                == Some(n as nat),
        r is None ==> spec_escape(zx as int, zy as int, cx as int, cy as int, max_iter as nat)
            is None,
{
    let mut x = zx;
    let mut y = zy;
    let mut n: u32 = 0;
    while n < max_iter
        invariant
            -COORD_LIMIT <= cx <= COORD_LIMIT,
            -COORD_LIMIT <= cy <= COORD_LIMIT,
            -ITER_BOUND <= x <= ITER_BOUND,
            -ITER_BOUND <= y <= ITER_BOUND,
            n <= max_iter,
            match spec_escape(x as int, y as int, cx as int, cy as int, (max_iter - n) as nat) {
                Some(m) => spec_escape(
                    zx as int, zy as int, cx as int, cy as int, max_iter as nat,
                ) == Some((m + n) as nat),
                None => spec_escape(
                    zx as int, zy as int, cx as int, cy as int, max_iter as nat,
                ) is None,
            },
        decreases max_iter - n,
    {
        proof {
            assert(x as int * (x as int) <= 1_100_000_000_000_000_000
                && y as int * (y as int) <= 1_100_000_000_000_000_000
                && x as int * (x as int) >= 0
                && y as int * (y as int) >= 0) by (nonlinear_arith)
                requires
                    -1_000_524_288 <= x as int <= 1_000_524_288,
                    -1_000_524_288 <= y as int <= 1_000_524_288,
            ;
        }
        let xx = x * x;
        let yy = y * y;
        if xx + yy > ESCAPE_NORM2 {
            return Some(n);
        }
        proof {
            assert(-131072 <= x as int <= 131072 && -131072 <= y as int <= 131072
                && 2 * (x as int) * (y as int) <= 2 * 17_179_869_184
                && 2 * (x as int) * (y as int) >= -2 * 17_179_869_184) by (nonlinear_arith)
                requires
                    x as int * (x as int) + y as int * (y as int) <= 17_179_869_184,
            ;
        }
        let a = xx - yy;
        let b = 2 * x * y;
        let dx = div_scale_exec(a);
        let dy = div_scale_exec(b);
        let ghost old_x = x as int;
        let ghost old_y = y as int;
        let ghost old_n = n as int;
        x = dx + cx;
        y = dy + cy;
        n = n + 1;
        proof {
            assert(x as int == step_re(old_x, old_y, cx as int));
            assert(y as int == step_im(old_x, old_y, cy as int));
            assert(spec_escape(old_x, old_y, cx as int, cy as int, (max_iter - old_n) as nat)
                == match spec_escape(
                    x as int, y as int, cx as int, cy as int, (max_iter - n) as nat,
                ) {
                    Some(m) => Some((m + 1) as nat),
                    None => None,
                });
        }
    }
    None
}

/// The Mandelbrot kernel at plane point `c`: iterate from zero, adding
/// the pixel's own coordinate each step.
pub fn mandelbrot_escape(cx: i64, cy: i64, max_iter: u32) -> (r: Option<u32>)
    requires
        -COORD_LIMIT <= cx <= COORD_LIMIT,
        -COORD_LIMIT <= cy <= COORD_LIMIT,
    ensures
        r matches Some(n) ==> n < max_iter
            && spec_escape(0, 0, cx as int, cy as int, max_iter as nat) == Some(n as nat),
        r is None ==> spec_escape(0, 0, cx as int, cy as int, max_iter as nat) is None,
{
    escape_time(0, 0, cx, cy, max_iter)
}

/// The Julia kernel at plane point `z`: iterate from the pixel's own
/// coordinate, adding the stored seed each step.
pub fn julia_escape(zx: i64, zy: i64, sx: i64, sy: i64, max_iter: u32) -> (r: Option<u32>)
    requires
        -COORD_LIMIT <= zx <= COORD_LIMIT,
        -COORD_LIMIT <= zy <= COORD_LIMIT,
        -COORD_LIMIT <= sx <= COORD_LIMIT,
        -COORD_LIMIT <= sy <= COORD_LIMIT,
    ensures
        r matches Some(n) ==> n < max_iter
            && spec_escape(zx as int, zy as int, sx as int, sy as int, max_iter as nat)
                == Some(n as nat),
        r is None ==> spec_escape(zx as int, zy as int, sx as int, sy as int, max_iter as nat)
            is None,
{
    escape_time(zx, zy, sx, sy, max_iter)
}

/// How the truncated scaling relates to the exact square: it never
/// overshoots, and it loses at most `2 * |a| * SCALE` of the square.
proof fn lemma_div_scale_sq(a: int)
    ensures
        div_scale(a) * div_scale(a) * (65536 * 65536) <= a * a,
        div_scale(a) * div_scale(a) * (65536 * 65536) >= a * a - 2 * abs(a) * 65536,
{
    let s: int = 65536;
    let aa: int = abs(a) as int;
    let q = aa / s;
    lemma_fundamental_div_mod(aa, s);
    lemma_mod_division_less_than_divisor(aa, s);
    assert(div_scale(a) * div_scale(a) == q * q) by (nonlinear_arith)
        requires
            div_scale(a) == q || div_scale(a) == -q,
    ;
    assert(aa * aa == a * a) by (nonlinear_arith)
        requires
            aa == a || aa == -a,
    ;
    assert(q * q * (s * s) <= aa * aa && q * q * (s * s) >= aa * aa - 2 * aa * s)
        by (nonlinear_arith)
        requires
            s == 65536,
            0 <= q,
            0 <= aa,
            q * s <= aa,
            q * s >= aa - s + 1,
    ;
}

/// The Mandelbrot kernel at the plane origin never escapes, whatever the
/// iteration budget: the orbit of 0 under `z -> z^2 + 0` stays at 0, an
/// interior point that keeps the stable interior color.
pub proof fn lemma_mandelbrot_origin_interior(fuel: nat)
    ensures
        spec_escape(0, 0, 0, 0, fuel) is None,
    decreases fuel,
{
    if fuel > 0 {
        assert(step_re(0, 0, 0) == 0);
        assert(step_im(0, 0, 0) == 0);
        lemma_mandelbrot_origin_interior((fuel - 1) as nat);
    }
}

/// With the seed at the origin the Julia iteration is plain squaring, and
/// truncation only shrinks: a point of norm at most 1 never escapes,
/// whatever the budget.
pub proof fn lemma_julia_unit_disk_interior(x: int, y: int, fuel: nat)
    requires
        norm2(x, y) <= 65536 * 65536,
    ensures
        spec_escape(x, y, 0, 0, fuel) is None,
    decreases fuel,
{
    let s2: int = (65536 * 65536) as int;
    if fuel > 0 {
        let a = x * x - y * y;
        let b = 2 * x * y;
        let x1 = step_re(x, y, 0);
        let y1 = step_im(x, y, 0);
        assert(x1 == div_scale(a) && y1 == div_scale(b));
        lemma_div_scale_sq(a);
        lemma_div_scale_sq(b);
        assert(a * a + b * b == norm2(x, y) * norm2(x, y) && norm2(x, y) >= 0)
            by (nonlinear_arith)
            requires
                a == x * x - y * y,
                b == 2 * x * y,
        ;
        assert(norm2(x, y) * norm2(x, y) <= s2 * s2) by (nonlinear_arith)
            requires
                0 <= norm2(x, y) <= s2,
        ;
        assert((x1 * x1 + y1 * y1) * (s2) == x1 * x1 * (s2) + y1 * y1 * (s2))
            by (nonlinear_arith)
        ;
        assert(norm2(x1, y1) <= s2);
        lemma_julia_unit_disk_interior(x1, y1, (fuel - 1) as nat);
    }
}

proof fn lemma_julia_growth(x: int, y: int, fuel: nat)
    requires
        norm2(x, y) >= 2 * (65536 * 65536),
        fuel >= 1,
        norm2(x, y) + (fuel - 1) * (65536 * 65536) > 4 * (65536 * 65536),
    ensures
        spec_escape(x, y, 0, 0, fuel) is Some,
    decreases fuel,
{
    let s: int = 65536;
    let s2: int = (65536 * 65536) as int;
    let n0 = norm2(x, y);
    if n0 > ESCAPE_NORM2 as int {
    } else {
        let a = x * x - y * y;
        let b = 2 * x * y;
        let x1 = step_re(x, y, 0);
        let y1 = step_im(x, y, 0);
        assert(x1 == div_scale(a) && y1 == div_scale(b));
        lemma_div_scale_sq(a);
        lemma_div_scale_sq(b);
        assert(a * a + b * b == n0 * n0 && abs(a) <= n0 && abs(b) <= n0)
            by (nonlinear_arith)
            requires
                a == x * x - y * y,
                b == 2 * x * y,
                n0 == x * x + y * y,
                abs(a) == a || abs(a) == -a,
                abs(b) == b || abs(b) == -b,
        ;
        assert((x1 * x1 + y1 * y1) * s2 == x1 * x1 * s2 + y1 * y1 * s2)
            by (nonlinear_arith)
        ;
        assert(norm2(x1, y1) * s2 >= n0 * n0 - 4 * n0 * s) by (nonlinear_arith)
            requires
                s == 65536,
                s2 == 65536 * 65536,
                norm2(x1, y1) * s2 == x1 * x1 * s2 + y1 * y1 * s2,
                x1 * x1 * s2 >= a * a - 2 * abs(a) * s,
                y1 * y1 * s2 >= b * b - 2 * abs(b) * s,
                a * a + b * b == n0 * n0,
                0 <= abs(a) <= n0,
                0 <= abs(b) <= n0,
        ;
        assert(n0 * n0 - 4 * n0 * s >= (n0 + s2) * s2) by (nonlinear_arith)
            requires
                s == 65536,
                s2 == 65536 * 65536,
                n0 >= 2 * s2,
        ;
        assert(norm2(x1, y1) >= n0 + s2);
        assert(n0 <= 4 * s2);
        assert((fuel - 1) * s2 > 4 * s2 - n0) by (nonlinear_arith)
            requires
                n0 + (fuel - 1) * s2 > 4 * s2,
        ;
        assert((fuel - 1) * s2 > 0);
        assert(fuel >= 2) by (nonlinear_arith)
            requires
                (fuel - 1) * s2 > 0,
                s2 == (65536 * 65536) as int,
                fuel >= 1,
        ;
        assert(norm2(x1, y1) + ((fuel - 1) - 1) * s2 >= n0 + (fuel - 1) * s2) by (nonlinear_arith)
            requires
                norm2(x1, y1) >= n0 + s2,
        ;
        lemma_julia_growth(x1, y1, (fuel - 1) as nat);
    }
}

/// With the seed at the origin the Julia iteration is plain squaring, so
/// a point well outside the unit circle must escape.  The bound here is a
/// squared norm of at least 2 — a safety margin of one truncation error
/// over the ideal bound 1 — and a budget of at least 4 iterations, within
/// which the norm provably passes the escape radius.
pub proof fn lemma_julia_outside_escapes(x: int, y: int, fuel: nat)
    requires
        norm2(x, y) >= 2 * (65536 * 65536),
        fuel >= 4,
    ensures
        spec_escape(x, y, 0, 0, fuel) is Some,
{
    lemma_julia_growth(x, y, fuel);
}

proof fn lemma_ratio_pow(f: nat)
    ensures
        f >= 24 ==> 3 * ((65536 * 65536) as int) * pow(2, f) < 16 * 65536 * pow(3, f),
    decreases f,
{
    if f == 24 {
        assert(pow(2, 24) == 16777216 && pow(3, 24) == 282429536481) by {
            reveal_with_fuel(pow, 25);
        };
    } else if f > 24 {
        lemma_ratio_pow((f - 1) as nat);
        lemma_pow_positive(2, (f - 1) as nat);
        lemma_pow_positive(3, (f - 1) as nat);
        lemma_pow1(2);
        lemma_pow1(3);
        lemma_pow_adds(2, (f - 1) as nat, 1);
        lemma_pow_adds(3, (f - 1) as nat, 1);
        let q2 = pow(2, (f - 1) as nat);
        let q3 = pow(3, (f - 1) as nat);
        assert(pow(2, f) == q2 * 2);
        assert(pow(3, f) == q3 * 3);
        let s2: int = (65536 * 65536) as int;
        assert(3 * s2 * (q2 * 2) == 2 * (3 * s2 * q2)) by (nonlinear_arith);
        assert(16 * 65536 * (q3 * 3) == 3 * (16 * 65536 * q3)) by (nonlinear_arith);
        assert(3 * s2 * pow(2, f) < 16 * 65536 * pow(3, f));
    }
}

proof fn lemma_julia_growth_near(x: int, y: int, fuel: nat)
    requires
        norm2(x, y) - (65536 * 65536) >= 16 * 65536,
        fuel >= 1,
        3 * ((65536 * 65536) as int) * pow(2, (fuel - 1) as nat)
            < (norm2(x, y) - (65536 * 65536)) * pow(3, (fuel - 1) as nat),
    ensures
        spec_escape(x, y, 0, 0, fuel) is Some,
    decreases fuel,
{
    let s: int = 65536;
    let s2: int = (65536 * 65536) as int;
    let n0 = norm2(x, y);
    let m = n0 - s2;
    if n0 > ESCAPE_NORM2 as int {
    } else {
        // A budget of one only covers immediate escape, and this point
        // did not escape: the growth hypothesis rules that case out.
        lemma_pow_positive(2, (fuel - 1) as nat);
        lemma_pow_positive(3, (fuel - 1) as nat);
        if fuel == 1 {
            lemma_pow0(2);
            lemma_pow0(3);
            assert(3 * s2 < m);
            assert(false);
        }
        let a = x * x - y * y;
        let b = 2 * x * y;
        let x1 = step_re(x, y, 0);
        let y1 = step_im(x, y, 0);
        assert(x1 == div_scale(a) && y1 == div_scale(b));
        lemma_div_scale_sq(a);
        lemma_div_scale_sq(b);
        assert(a * a + b * b == n0 * n0 && abs(a) <= n0 && abs(b) <= n0)
            by (nonlinear_arith)
            requires
                a == x * x - y * y,
                b == 2 * x * y,
                n0 == x * x + y * y,
                abs(a) == a || abs(a) == -a,
                abs(b) == b || abs(b) == -b,
        ;
        assert((x1 * x1 + y1 * y1) * s2 == x1 * x1 * s2 + y1 * y1 * s2)
            by (nonlinear_arith)
        ;
        assert(norm2(x1, y1) * s2 >= n0 * n0 - 4 * n0 * s) by (nonlinear_arith)
            requires
                s == 65536,
                s2 == 65536 * 65536,
                norm2(x1, y1) * s2 == x1 * x1 * s2 + y1 * y1 * s2,
                x1 * x1 * s2 >= a * a - 2 * abs(a) * s,
                y1 * y1 * s2 >= b * b - 2 * abs(b) * s,
                a * a + b * b == n0 * n0,
                0 <= abs(a) <= n0,
                0 <= abs(b) <= n0,
        ;
        let n1 = norm2(x1, y1);
        let m1 = n1 - s2;
        // The distance above the unit circle grows by at least half.
        assert(2 * (n0 * n0 - 4 * n0 * s) >= (3 * m + 2 * s2) * s2) by (nonlinear_arith)
            requires
                s == 65536,
                s2 == 65536 * 65536,
                n0 == s2 + m,
                m >= 16 * s,
        ;
        assert(2 * m1 >= 3 * m) by (nonlinear_arith)
            requires
                s2 == 65536 * 65536,
                n1 * s2 >= n0 * n0 - 4 * n0 * s,
                2 * (n0 * n0 - 4 * n0 * s) >= (3 * m + 2 * s2) * s2,
                m1 == n1 - s2,
        ;
        assert(m1 >= 16 * s);
        let p2 = pow(2, (fuel - 2) as nat);
        let p3 = pow(3, (fuel - 2) as nat);
        lemma_pow_positive(2, (fuel - 2) as nat);
        lemma_pow_positive(3, (fuel - 2) as nat);
        lemma_pow1(2);
        lemma_pow1(3);
        lemma_pow_adds(2, (fuel - 2) as nat, 1);
        lemma_pow_adds(3, (fuel - 2) as nat, 1);
        assert(pow(2, (fuel - 1) as nat) == 2 * p2);
        assert(pow(3, (fuel - 1) as nat) == 3 * p3);
        lemma_mul_inequality(3 * m, 2 * m1, p3);
        assert(3 * s2 * (2 * p2) < m * (3 * p3));
        assert(m * (3 * p3) == (3 * m) * p3) by (nonlinear_arith);
        assert((2 * m1) * p3 == 2 * (m1 * p3)) by (nonlinear_arith);
        assert(3 * s2 * (2 * p2) == 2 * (3 * s2 * p2)) by (nonlinear_arith);
        assert(3 * s2 * p2 < m1 * p3);
        lemma_julia_growth_near(x1, y1, (fuel - 1) as nat);
    }
}

/// The sharper escape law: with the seed at the origin, any point whose
/// squared norm exceeds 1 by at least `16 / SCALE` — one narrow band of
/// truncation error above the ideal unit circle — escapes within a budget
/// of 25 iterations or more.
pub proof fn lemma_julia_just_outside_escapes(x: int, y: int, fuel: nat)
    requires
        norm2(x, y) >= 65536 * 65536 + 16 * 65536,
        fuel >= 25,
    ensures
        spec_escape(x, y, 0, 0, fuel) is Some,
{
    let s2: int = (65536 * 65536) as int;
    let m = norm2(x, y) - s2;
    lemma_ratio_pow((fuel - 1) as nat);
    lemma_pow_positive(3, (fuel - 1) as nat);
    lemma_mul_inequality((16 * 65536) as int, m, pow(3, (fuel - 1) as nat));
    assert(3 * s2 * pow(2, (fuel - 1) as nat) < m * pow(3, (fuel - 1) as nat));
    lemma_julia_growth_near(x, y, fuel);
}

} // verus!
