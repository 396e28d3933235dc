//! Laws of the navigation state that relate several operations.

use vstd::prelude::*;
use crate::rat::rat_eq;
use crate::state::{
    ViewState, Direction, opposite, state_wf, spec_move_center, spec_zoom_in, spec_zoom_out,
};
use crate::zoomstep::{zoom_num, zoom_den, step_num, step_den, lemma_zoom_positive};

verus! {

/// One zoom operation.
#[derive(Clone, Copy, PartialEq, Eq, Structural, Debug)]
pub enum ZoomOp {
    In,
    Out,
}

/// The state after a sequence of zoom operations.
pub open spec fn apply_zoom_ops(s: ViewState, ops: Seq<ZoomOp>) -> ViewState
    decreases ops.len(),
{
    if ops.len() == 0 {
        s
    } else {
        let s1 = match ops[0] {
            ZoomOp::In => spec_zoom_in(s).0,
            ZoomOp::Out => spec_zoom_out(s).0,
        };
        apply_zoom_ops(s1, ops.drop_first())
    }
}

/// How many operations of the sequence zoom in.
pub open spec fn count_in(ops: Seq<ZoomOp>) -> int
    decreases ops.len(),
{
    if ops.len() == 0 {
        0
    } else {
        (if ops[0] is In { 1int } else { 0int }) + count_in(ops.drop_first())
    }
}

/// How many operations of the sequence zoom out.
pub open spec fn count_out(ops: Seq<ZoomOp>) -> int
    decreases ops.len(),
{
    if ops.len() == 0 {
        0
    } else {
        (if ops[0] is Out { 1int } else { 0int }) + count_out(ops.drop_first())
    }
}

proof fn lemma_counts_bound(ops: Seq<ZoomOp>)
    ensures
        0 <= count_in(ops),
        0 <= count_out(ops),
        count_in(ops) + count_out(ops) == ops.len(),
    decreases ops.len(),
{
    if ops.len() > 0 {
        lemma_counts_bound(ops.drop_first());
    }
}

/// After any sequence of `zoom_in` / `zoom_out` operations the zoom
/// exponent is the number of outward steps minus the number of inward
/// steps, nothing else of the state moves, and the zoom value
/// `3 * (11/10)^e` stays a ratio of two positive integers — strictly
/// positive for every sequence.
pub proof fn lemma_zoom_sequence(s: ViewState, ops: Seq<ZoomOp>)
    requires
        i32::MIN <= s.zoom_exp - ops.len(),
        s.zoom_exp + ops.len() <= i32::MAX,
    ensures
        ({
            let r = apply_zoom_ops(s, ops);
            &&& r.zoom_exp == s.zoom_exp + count_out(ops) - count_in(ops)
            &&& r == (ViewState { zoom_exp: r.zoom_exp, ..s })
            &&& zoom_num(r.zoom_exp as int) >= 1
            &&& zoom_den(r.zoom_exp as int) >= 1
        }),
    decreases ops.len(),
{
    lemma_counts_bound(ops);
    if ops.len() == 0 {
        lemma_zoom_positive(s.zoom_exp as int);
    } else {
        let s1 = match ops[0] {
            ZoomOp::In => spec_zoom_in(s).0,
            ZoomOp::Out => spec_zoom_out(s).0,
        };
        lemma_zoom_sequence(s1, ops.drop_first());
    }
}

proof fn lemma_add_sub_cancel(an: int, ad: int, n: int, dd: int)
    by (nonlinear_arith)
    ensures
        ((an * dd + n * ad) * dd + (-n) * (ad * dd)) * ad == an * ((ad * dd) * dd),
{
}

/// Moving the center by a direction and then by its opposite, at the same
/// zoom, returns exactly to the original center: the two exact steps
/// cancel, and nothing else of the state moves.
pub proof fn lemma_move_center_round_trip(s: ViewState, d: Direction)
    requires
        state_wf(s),
        spec_move_center(s, d).1,
        spec_move_center(spec_move_center(s, d).0, opposite(d)).1,
    ensures
        ({
            let back = spec_move_center(spec_move_center(s, d).0, opposite(d)).0;
            &&& rat_eq(back.center_x, s.center_x)
            &&& rat_eq(back.center_y, s.center_y)
            &&& back.zoom_exp == s.zoom_exp
            &&& back.start_x == s.start_x
            &&& back.start_y == s.start_y
            &&& back.palette == s.palette
            &&& back.set == s.set
        }),
{
    let e = s.zoom_exp as int;
    let n = step_num(e);
    let dd = step_den(e);
    lemma_zoom_positive(e);
    let mid = spec_move_center(s, d).0;
    let back = spec_move_center(mid, opposite(d)).0;
    match d {
        Direction::Left => {
            lemma_add_sub_cancel(s.center_x.num as int, s.center_x.den as int, n, dd);
        },
        Direction::Right => {
            lemma_add_sub_cancel(s.center_x.num as int, s.center_x.den as int, -n, dd);
        },
        Direction::Down => {
            lemma_add_sub_cancel(s.center_y.num as int, s.center_y.den as int, n, dd);
        },
        Direction::Up => {
            lemma_add_sub_cancel(s.center_y.num as int, s.center_y.den as int, -n, dd);
        },
    }
}

} // verus!
