//! The navigation state of the viewer and its mutation primitives.
//!
//! Every operation is total and reports whether it actually changed the
//! state, so the caller can gate redraw requests on real changes.  The
//! continuous parameters are kept exactly: the zoom as an integer exponent,
//! the center as exact rationals, the Julia seed and the palette offset in
//! hundredths.

use vstd::prelude::*;
use crate::FractalSet;
use crate::rat::{Rat, rat_wf, add_fits, rat_after_add};
use crate::zoomstep::{step_num, step_den, step_fits, zoom_step};

verus! {

/// A direction for a pan, either of the Julia seed or of the view center.
#[derive(Clone, Copy, PartialEq, Eq, Structural, Debug)]
pub enum Direction {
    Left,
    Right,
    Up,
    Down,
}

/// The opposite direction.
pub open spec fn opposite(d: Direction) -> Direction {
    match d {
        Direction::Left => Direction::Right,
        Direction::Right => Direction::Left,
        Direction::Up => Direction::Down,
        Direction::Down => Direction::Up,
    }
}

/// The navigation state.
///
/// `zoom_exp` holds the zoom as `3 * (11/10)^zoom_exp`: the half-width of
/// the visible window of the complex plane, strictly positive by
/// construction.  `center_*` is the plane point at the viewport center.
/// `start_*` is the Julia seed and `palette` the palette offset, both in
/// hundredths of a unit.
#[derive(Clone, Copy, PartialEq, Eq, Structural, Debug)]
pub struct ViewState {
    pub zoom_exp: i32,
    pub center_x: Rat,
    pub center_y: Rat,
    pub start_x: i64,
    pub start_y: i64,
    pub palette: i64,
    pub set: FractalSet,
}

/// Well-formedness: the center rationals have positive denominators.
pub open spec fn state_wf(s: ViewState) -> bool {
    rat_wf(s.center_x) && rat_wf(s.center_y)
}

/// The state the viewer starts in: zoom 3, center (0.5, 0.25), seed (0, 0),
/// palette offset 0.5, Mandelbrot active.
pub open spec fn initial_state() -> ViewState {
    ViewState {
        zoom_exp: 0,
        center_x: Rat { num: 1, den: 2 },
        center_y: Rat { num: 1, den: 4 },
        start_x: 0,
        start_y: 0,
        palette: 50,
        set: FractalSet::Mandelbrot,
    }
}

/// What `reset` restores: the initial zoom, center and seed, but palette
/// offset 0 — deliberately not the startup value of 0.5 — and the active
/// set kept as it is.
pub open spec fn reset_state(s: ViewState) -> ViewState {
    ViewState {
        zoom_exp: 0,
        center_x: Rat { num: 1, den: 2 },
        center_y: Rat { num: 1, den: 4 },
        start_x: 0,
        start_y: 0,
        palette: 0,
        set: s.set,
    }
}

/// Seed pan: one hundredth per step, independent of zoom.  Unchanged only
/// when the coordinate would leave `i64`.
pub open spec fn spec_pan(s: ViewState, d: Direction) -> (ViewState, bool) {
    match d {
        Direction::Left => if s.start_x > i64::MIN {
            (ViewState { start_x: (s.start_x - 1) as i64, ..s }, true)
        } else {
            (s, false)
        },
        Direction::Right => if s.start_x < i64::MAX {
            (ViewState { start_x: (s.start_x + 1) as i64, ..s }, true)
        } else {
            (s, false)
        },
        Direction::Down => if s.start_y > i64::MIN {
            (ViewState { start_y: (s.start_y - 1) as i64, ..s }, true)
        } else {
            (s, false)
        },
        Direction::Up => if s.start_y < i64::MAX {
            (ViewState { start_y: (s.start_y + 1) as i64, ..s }, true)
        } else {
            (s, false)
        },
    }
}

/// Center pan: an exact step of `0.1 * zoom`, added to one axis.  Moving
/// the view left shifts the center toward larger real parts, as the viewer
/// has always done.  Unchanged only when the exact step or the sum cannot
/// be represented.
pub open spec fn spec_move_center(s: ViewState, d: Direction) -> (ViewState, bool) {
    if !step_fits(s.zoom_exp as int) {
        (s, false)
    } else {
        let n = step_num(s.zoom_exp as int);
        let dd = step_den(s.zoom_exp as int);
        match d {
            Direction::Left => if add_fits(s.center_x, n, dd) {
                (ViewState { center_x: rat_after_add(s.center_x, n, dd), ..s }, true)
            } else {
                (s, false)
            },
            Direction::Right => if add_fits(s.center_x, -n, dd) {
                (ViewState { center_x: rat_after_add(s.center_x, -n, dd), ..s }, true)
            } else {
                (s, false)
            },
            Direction::Down => if add_fits(s.center_y, n, dd) {
                (ViewState { center_y: rat_after_add(s.center_y, n, dd), ..s }, true)
            } else {
                (s, false)
            },
            Direction::Up => if add_fits(s.center_y, -n, dd) {
                (ViewState { center_y: rat_after_add(s.center_y, -n, dd), ..s }, true)
            } else {
                (s, false)
            },
        }
    }
}

/// Zoom in: divide the zoom by 1.1, that is, lower the exponent.
pub open spec fn spec_zoom_in(s: ViewState) -> (ViewState, bool) {
    if s.zoom_exp > i32::MIN {
        (ViewState { zoom_exp: (s.zoom_exp - 1) as i32, ..s }, true)
    } else {
        (s, false)
    }
}

/// Zoom out: multiply the zoom by 1.1, that is, raise the exponent.
pub open spec fn spec_zoom_out(s: ViewState) -> (ViewState, bool) {
    if s.zoom_exp < i32::MAX {
        (ViewState { zoom_exp: (s.zoom_exp + 1) as i32, ..s }, true)
    } else {
        (s, false)
    }
}

/// Palette shift: one hundredth up or down, unclamped.
pub open spec fn spec_shift_palette(s: ViewState, up: bool) -> (ViewState, bool) {
    if up {
        if s.palette < i64::MAX {
            (ViewState { palette: (s.palette + 1) as i64, ..s }, true)
        } else {
            (s, false)
        }
    } else {
        if s.palette > i64::MIN {
            (ViewState { palette: (s.palette - 1) as i64, ..s }, true)
        } else {
            (s, false)
        }
    }
}

/// Set selection: a change only when the requested set differs.
pub open spec fn spec_select_set(s: ViewState, t: FractalSet) -> (ViewState, bool) {
    if s.set == t {
        (s, false)
    } else {
        (ViewState { set: t, ..s }, true)
    }
}

/// Reset: a change exactly when the state differs from its reset target.
pub open spec fn spec_reset(s: ViewState) -> (ViewState, bool) {
    (reset_state(s), s != reset_state(s))
}

impl ViewState {
    /// The state the viewer starts in.
    pub fn new() -> (s: ViewState)
        ensures
            s == initial_state(),
            state_wf(s),
    {
        ViewState {
            zoom_exp: 0,
            center_x: Rat { num: 1, den: 2 },
            center_y: Rat { num: 1, den: 4 },
            start_x: 0,
            start_y: 0,
            palette: 50,
            set: FractalSet::Mandelbrot,
        }
    }

    /// Moves the Julia seed by one hundredth in direction `d`.
    pub fn pan(&mut self, d: Direction) -> (changed: bool)
        ensures
            (*final(self), changed) == spec_pan(*old(self), d),
            state_wf(*old(self)) ==> state_wf(*final(self)),
    {
        match d {
            Direction::Left => {
                if self.start_x > i64::MIN {
                    self.start_x = self.start_x - 1;
                    true
                } else {
                    false
                }
            },
            Direction::Right => {
                if self.start_x < i64::MAX {
                    self.start_x = self.start_x + 1;
                    true
                } else {
                    false
                }
            },
            Direction::Down => {
                if self.start_y > i64::MIN {
                    self.start_y = self.start_y - 1;
                    true
                } else {
                    false
                }
            },
            Direction::Up => {
                if self.start_y < i64::MAX {
                    self.start_y = self.start_y + 1;
                    true
                } else {
                    false
                }
            },
        }
    }

    /// Moves the view center by the exact step `0.1 * zoom` in direction `d`.
    pub fn move_center(&mut self, d: Direction) -> (changed: bool)
        requires
            state_wf(*old(self)),
        ensures
            (*final(self), changed) == spec_move_center(*old(self), d),
            state_wf(*final(self)),
    {
        match zoom_step(self.zoom_exp) {
            None => false,
            Some((n, dd)) => {
                match d {
                    Direction::Left => {
                        match self.center_x.add_checked(n, dd) {
                            Some(v) => {
                                self.center_x = v;
                                true
                            },
                            None => false,
                        }
                    },
                    Direction::Right => {
                        match self.center_x.add_checked(-n, dd) {
                            Some(v) => {
                                self.center_x = v;
                                true
                            },
                            None => false,
                        }
                    },
                    Direction::Down => {
                        match self.center_y.add_checked(n, dd) {
                            Some(v) => {
                                self.center_y = v;
                                true
                            },
                            None => false,
                        }
                    },
                    Direction::Up => {
                        match self.center_y.add_checked(-n, dd) {
                            Some(v) => {
                                self.center_y = v;
                                true
                            },
                            None => false,
                        }
                    },
                }
            },
        }
    }

    /// Divides the zoom by 1.1 (magnifies).
    pub fn zoom_in(&mut self) -> (changed: bool)
        ensures
            (*final(self), changed) == spec_zoom_in(*old(self)),
            state_wf(*old(self)) ==> state_wf(*final(self)),
    {
        if self.zoom_exp > i32::MIN {
            self.zoom_exp = self.zoom_exp - 1;
            true
        } else {
            false
        }
    }

    /// Multiplies the zoom by 1.1 (widens the view).
    pub fn zoom_out(&mut self) -> (changed: bool)
        ensures
            (*final(self), changed) == spec_zoom_out(*old(self)),
            state_wf(*old(self)) ==> state_wf(*final(self)),
    {
        if self.zoom_exp < i32::MAX {
            self.zoom_exp = self.zoom_exp + 1;
            true
        } else {
            false
        }
    }

    /// Shifts the palette offset by one hundredth, up or down.
    pub fn shift_palette(&mut self, up: bool) -> (changed: bool)
        ensures
            (*final(self), changed) == spec_shift_palette(*old(self), up),
            state_wf(*old(self)) ==> state_wf(*final(self)),
    {
        if up {
            if self.palette < i64::MAX {
                self.palette = self.palette + 1;
                true
            } else {
                false
            }
        } else {
            if self.palette > i64::MIN {
                self.palette = self.palette - 1;
                true
            } else {
                false
            }
        }
    }

    /// Selects the set to draw; reports "unchanged" when it is already
    /// the active one.
    pub fn select_set(&mut self, t: FractalSet) -> (changed: bool)
        ensures
            (*final(self), changed) == spec_select_set(*old(self), t),
            state_wf(*old(self)) ==> state_wf(*final(self)),
    {
        if self.set == t {
            false
        } else {
            self.set = t;
            true
        }
    }

    /// Restores zoom, center and seed to their startup values and the
    /// palette offset to 0; keeps the active set.
    pub fn reset(&mut self) -> (changed: bool)
        ensures
            (*final(self), changed) == spec_reset(*old(self)),
            state_wf(*final(self)),
    {
        let target = ViewState {
            zoom_exp: 0,
            center_x: Rat { num: 1, den: 2 },
            center_y: Rat { num: 1, den: 4 },
            start_x: 0,
            start_y: 0,
            palette: 0,
            set: self.set,
        };
        let changed = !(*self == target);
        *self = target;
        changed
    }
}

} // verus!
