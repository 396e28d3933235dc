//! The application controller: one dispatch per backend event.
//!
//! The controller owns the navigation state and the current surface size.
//! Each delivered event is handled to completion and answered with a
//! single action for the backend shell to perform: exit, request a
//! redraw, draw one frame with the given parameters, or show the status
//! text.  Redraws are requested exactly when a key event changed the
//! state, never on a timer: an idle viewer draws nothing.

use vstd::prelude::*;
use crate::FractalSet;
use crate::rat::Rat;
use crate::state::{ViewState, state_wf};
use crate::input::{Key, Phase, spec_route, handle_key};

verus! {

/// A backend event, as the shell hands it in.
#[derive(Clone, Copy, PartialEq, Eq, Structural, Debug)]
pub enum Event {
    CloseRequested,
    Resized(u32, u32),
    RedrawRequested,
    KeyboardInput(Key, Phase),
    Init,
    Other,
}

/// Everything one frame needs: the surface size for aspect correction and
/// the navigation parameters the kernel reads.
#[derive(Clone, Copy, PartialEq, Eq, Structural, Debug)]
pub struct FrameParams {
    pub width: u32,
    pub height: u32,
    pub set: FractalSet,
    pub zoom_exp: i32,
    pub center_x: Rat,
    pub center_y: Rat,
    pub start_x: i64,
    pub start_y: i64,
    pub palette: i64,
}

/// What the shell must do after an event was handled.
#[derive(Clone, Copy, PartialEq, Eq, Structural, Debug)]
pub enum Action {
    Exit,
    RequestRedraw,
    Draw(FrameParams),
    ShowInfo,
    Ignore,
}

/// The controller's state: the navigation state and the surface size the
/// backend last reported.
#[derive(Clone, Copy, PartialEq, Eq, Structural, Debug)]
pub struct AppState {
    pub view: ViewState,
    pub width: u32,
    pub height: u32,
}

/// The parameters a frame drawn in state `st` uses: always the surface
/// size the backend reported last, never an older one.
pub open spec fn frame_params(st: AppState) -> FrameParams {
    FrameParams {
        width: st.width,
        height: st.height,
        set: st.view.set,
        zoom_exp: st.view.zoom_exp,
        center_x: st.view.center_x,
        center_y: st.view.center_y,
        start_x: st.view.start_x,
        start_y: st.view.start_y,
        palette: st.view.palette,
    }
}

/// What one event does to the controller state, and the action it answers.
pub open spec fn spec_dispatch(st: AppState, ev: Event) -> (AppState, Action) {
    match ev {
        Event::CloseRequested => (st, Action::Exit),
        Event::Resized(w, h) => (AppState { width: w, height: h, ..st }, Action::RequestRedraw),
        Event::RedrawRequested => (st, Action::Draw(frame_params(st))),
        Event::KeyboardInput(k, ph) => {
            if k is KeyH && ph is Released {
                (st, Action::ShowInfo)
            } else {
                let routed = spec_route(st.view, k, ph);
                (
                    AppState { view: routed.0, ..st },
                    if routed.1 {
                        Action::RequestRedraw
                    } else {
                        Action::Ignore
                    },
                )
            }
        },
        Event::Init => (st, Action::ShowInfo),
        Event::Other => (st, Action::Ignore),
    }
}

/// Handles one backend event: mutates the controller state and returns
/// the action the shell must perform.
pub fn handle_event(st: &mut AppState, ev: Event) -> (a: Action)
    requires
        state_wf(old(st).view),
    ensures
        (*final(st), a) == spec_dispatch(*old(st), ev),
        state_wf(final(st).view),
{
    match ev {
        Event::CloseRequested => Action::Exit,
        Event::Resized(w, h) => {
            st.width = w;
            st.height = h;
            Action::RequestRedraw
        },
        Event::RedrawRequested => {
            Action::Draw(FrameParams {
                width: st.width,
                height: st.height,
                set: st.view.set,
                zoom_exp: st.view.zoom_exp,
                center_x: st.view.center_x,
                center_y: st.view.center_y,
                start_x: st.view.start_x,
                start_y: st.view.start_y,
                palette: st.view.palette,
            })
        },
        Event::KeyboardInput(k, ph) => {
            if matches!(k, Key::KeyH) && matches!(ph, Phase::Released) {
                Action::ShowInfo
            } else {
                let redraw = handle_key(&mut st.view, k, ph);
                if redraw {
                    Action::RequestRedraw
                } else {
                    Action::Ignore
                }
            }
        },
        Event::Init => Action::ShowInfo,
        Event::Other => Action::Ignore,
    }
}

/// A resize followed by a redraw draws with the new surface size: the
/// frame parameters of the redraw carry exactly the resized width and
/// height, while the navigation state is untouched by the resize.
pub proof fn lemma_resize_then_redraw(st: AppState, w: u32, h: u32)
    ensures
        ({
            let st1 = spec_dispatch(st, Event::Resized(w, h)).0;
            let after = spec_dispatch(st1, Event::RedrawRequested);
            &&& st1.view == st.view
            &&& after.0 == st1
            &&& after.1 == Action::Draw(frame_params(st1))
            &&& frame_params(st1).width == w
            &&& frame_params(st1).height == h
        }),
{
}

/// The index order of the full-screen quad, drawn as a triangle fan.
pub fn canvas_indices() -> (r: Vec<u8>)
    ensures
        r@ == seq![0u8, 1u8, 2u8, 3u8],
{
    let mut v: Vec<u8> = Vec::new();
    v.push(0);
    v.push(1);
    v.push(2);
    v.push(3);
    proof {
        assert(v@ =~= seq![0u8, 1u8, 2u8, 3u8]);
    }
    v
}

} // verus!
