//! The input router: key events to state changes, with redraw gating.
//!
//! Continuous-adjustment keys (arrows, WASD, shift, control, plus, minus)
//! act on every delivered event, so holding a key keeps moving.  Discrete
//! actions (reset, the help toggle) act only on the release transition.
//! Unrecognized keys are ignored.  The router reports whether the state
//! actually changed, and the controller must request a redraw exactly then.

use vstd::prelude::*;
use crate::FractalSet;
use crate::state::{
    ViewState, Direction, state_wf, spec_pan, spec_move_center, spec_zoom_in, spec_zoom_out,
    spec_shift_palette, spec_select_set, spec_reset,
};

verus! {

/// The keys the router reacts to.  Anything else a backend may deliver is
/// `Other`, which the router ignores.
#[derive(Clone, Copy, PartialEq, Eq, Structural, Debug)]
pub enum Key {
    ArrowLeft,
    ArrowRight,
    ArrowUp,
    ArrowDown,
    KeyA,
    KeyD,
    KeyS,
    KeyW,
    ShiftLeft,
    ShiftRight,
    ControlLeft,
    ControlRight,
    Minus,
    NumpadSubtract,
    NumpadAdd,
    KeyJ,
    KeyM,
    Numpad0,
    KeyH,
    Other,
}

/// Whether a key event is the initial press / a repeat, or the release.
#[derive(Clone, Copy, PartialEq, Eq, Structural, Debug)]
pub enum Phase {
    Pressed,
    Released,
}

/// What a key event does to the state, and whether it changed it.
pub open spec fn spec_route(s: ViewState, k: Key, ph: Phase) -> (ViewState, bool) {
    match k {
        Key::ArrowLeft => spec_pan(s, Direction::Left),
        Key::ArrowRight => spec_pan(s, Direction::Right),
        Key::ArrowUp => spec_pan(s, Direction::Up),
        Key::ArrowDown => spec_pan(s, Direction::Down),
        Key::KeyA => spec_move_center(s, Direction::Left),
        Key::KeyD => spec_move_center(s, Direction::Right),
        Key::KeyS => spec_move_center(s, Direction::Down),
        Key::KeyW => spec_move_center(s, Direction::Up),
        Key::ShiftLeft => spec_zoom_in(s),
        Key::ShiftRight => spec_zoom_in(s),
        Key::ControlLeft => spec_zoom_out(s),
        Key::ControlRight => spec_zoom_out(s),
        Key::Minus => spec_shift_palette(s, false),
        Key::NumpadSubtract => spec_shift_palette(s, false),
        Key::NumpadAdd => spec_shift_palette(s, true),
        Key::KeyJ => spec_select_set(s, FractalSet::Julia),
        Key::KeyM => spec_select_set(s, FractalSet::Mandelbrot),
        Key::Numpad0 => if ph is Released {
            spec_reset(s)
        } else {
            (s, false)
        },
        Key::KeyH => (s, false),
        Key::Other => (s, false),
    }
}

/// Routes one key event to the state.  Returns whether the state changed,
/// which is exactly when the caller must request a redraw.
pub fn handle_key(s: &mut ViewState, k: Key, ph: Phase) -> (redraw: bool)
    requires
        state_wf(*old(s)),
    ensures
        (*final(s), redraw) == spec_route(*old(s), k, ph),
        state_wf(*final(s)),
{
    match k {
        Key::ArrowLeft => s.pan(Direction::Left),
        Key::ArrowRight => s.pan(Direction::Right),
        Key::ArrowUp => s.pan(Direction::Up),
        Key::ArrowDown => s.pan(Direction::Down),
        Key::KeyA => s.move_center(Direction::Left),
        Key::KeyD => s.move_center(Direction::Right),
        Key::KeyS => s.move_center(Direction::Down),
        Key::KeyW => s.move_center(Direction::Up),
        Key::ShiftLeft => s.zoom_in(),
        Key::ShiftRight => s.zoom_in(),
        Key::ControlLeft => s.zoom_out(),
        Key::ControlRight => s.zoom_out(),
        Key::Minus => s.shift_palette(false),
        Key::NumpadSubtract => s.shift_palette(false),
        Key::NumpadAdd => s.shift_palette(true),
        Key::KeyJ => s.select_set(FractalSet::Julia),
        Key::KeyM => s.select_set(FractalSet::Mandelbrot),
        Key::Numpad0 => {
            if matches!(ph, Phase::Released) {
                s.reset()
            } else {
                false
            }
        },
        Key::KeyH => false,
        Key::Other => false,
    }
}

/// Selecting the already-active set reports "unchanged", so the set-switch
/// keys never trigger a redraw when the set is already the one asked for.
pub proof fn lemma_select_same_no_redraw(s: ViewState, ph: Phase)
    ensures
        spec_select_set(s, s.set).1 == false,
        spec_select_set(s, s.set).0 == s,
        s.set is Julia ==> spec_route(s, Key::KeyJ, ph) == (s, false),
        s.set is Mandelbrot ==> spec_route(s, Key::KeyM, ph) == (s, false),
{
}

} // verus!
