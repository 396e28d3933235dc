use fractal_view::controller::{canvas_indices, handle_event, Action, AppState, Event};
use fractal_view::input::{Key, Phase};
use fractal_view::kernel::{julia_escape, mandelbrot_escape, SCALE};
use fractal_view::state::ViewState;
use fractal_view::FractalSet;

fn fresh_app() -> AppState {
    AppState { view: ViewState::new(), width: 640, height: 480 }
}

#[test]
fn mandelbrot_origin_never_escapes() {
    assert_eq!(mandelbrot_escape(0, 0, 1), None);
    assert_eq!(mandelbrot_escape(0, 0, 100), None);
    assert_eq!(mandelbrot_escape(0, 0, 10_000), None);
}

#[test]
fn mandelbrot_far_point_escapes_immediately() {
    // Plane point (2, 2) is outside the radius-2 bound after one step.
    let c = 2 * SCALE;
    let r = mandelbrot_escape(c, c, 100);
    assert_eq!(r, Some(1));
}

#[test]
fn julia_zero_seed_inside_unit_disk_stays() {
    // |z0| < 1: squaring only shrinks; never escapes within the budget.
    assert_eq!(julia_escape(30_000, 30_000, 0, 0, 1000), None);
    // |z0| = 1 exactly on the real axis.
    assert_eq!(julia_escape(SCALE, 0, 0, 0, 1000), None);
}

#[test]
fn julia_zero_seed_outside_unit_disk_escapes() {
    // |z0|^2 = 2 * 93000^2 is well above 1: must escape.
    assert!(julia_escape(93_000, 93_000, 0, 0, 100).is_some());
    // z0 = 2 on the real axis escapes after a single squaring.
    assert_eq!(julia_escape(2 * SCALE, 0, 0, 0, 100), Some(1));
    // Just outside the unit circle, one error band above it: still escapes.
    assert!(julia_escape(SCALE + 16, 0, 0, 0, 100).is_some());
}

#[test]
fn julia_seed_changes_the_orbit() {
    // With a far seed, even the origin is dragged out immediately.
    let far = 3 * SCALE;
    assert!(julia_escape(0, 0, far, 0, 100).is_some());
    assert_eq!(julia_escape(0, 0, 0, 0, 100), None);
}

#[test]
fn resize_then_redraw_uses_new_dimensions() {
    let mut app = fresh_app();
    let a = handle_event(&mut app, Event::Resized(1920, 1080));
    assert_eq!(a, Action::RequestRedraw);
    match handle_event(&mut app, Event::RedrawRequested) {
        Action::Draw(p) => {
            assert_eq!(p.width, 1920);
            assert_eq!(p.height, 1080);
        }
        other => panic!("expected a draw, got {:?}", other),
    }
}

#[test]
fn draw_parameters_mirror_the_view_state() {
    let mut app = fresh_app();
    assert_eq!(handle_event(&mut app, Event::KeyboardInput(Key::KeyJ, Phase::Pressed)), Action::RequestRedraw);
    assert_eq!(handle_event(&mut app, Event::KeyboardInput(Key::ControlLeft, Phase::Pressed)), Action::RequestRedraw);
    match handle_event(&mut app, Event::RedrawRequested) {
        Action::Draw(p) => {
            assert_eq!(p.set, FractalSet::Julia);
            assert_eq!(p.zoom_exp, 1);
            assert_eq!(p.width, 640);
            assert_eq!(p.height, 480);
            assert_eq!(p.palette, 50);
        }
        other => panic!("expected a draw, got {:?}", other),
    }
}

#[test]
fn close_init_and_unknown_events() {
    let mut app = fresh_app();
    assert_eq!(handle_event(&mut app, Event::CloseRequested), Action::Exit);
    assert_eq!(handle_event(&mut app, Event::Init), Action::ShowInfo);
    assert_eq!(handle_event(&mut app, Event::Other), Action::Ignore);
}

#[test]
fn help_release_shows_info_without_redraw() {
    let mut app = fresh_app();
    let before = app.view;
    assert_eq!(handle_event(&mut app, Event::KeyboardInput(Key::KeyH, Phase::Released)), Action::ShowInfo);
    assert_eq!(app.view, before);
    // A keypress that changes nothing asks for nothing.
    assert_eq!(handle_event(&mut app, Event::KeyboardInput(Key::KeyM, Phase::Pressed)), Action::Ignore);
}

#[test]
fn quad_index_order() {
    assert_eq!(canvas_indices(), vec![0u8, 1, 2, 3]);
}

#[test]
fn set_names() {
    assert_eq!(FractalSet::Mandelbrot.name(), "Mandelbrot");
    assert_eq!(FractalSet::Julia.name(), "Julia");
}
