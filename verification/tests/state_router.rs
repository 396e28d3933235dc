use fractal_view::FractalSet;
use fractal_view::input::{handle_key, Key, Phase};
use fractal_view::rat::Rat;
use fractal_view::state::{Direction, ViewState};
use fractal_view::zoomstep::zoom_step;

#[test]
fn startup_defaults() {
    let s = ViewState::new();
    assert_eq!(s.zoom_exp, 0);
    assert_eq!(s.center_x, Rat { num: 1, den: 2 });
    assert_eq!(s.center_y, Rat { num: 1, den: 4 });
    assert_eq!(s.start_x, 0);
    assert_eq!(s.start_y, 0);
    assert_eq!(s.palette, 50);
    assert_eq!(s.set, FractalSet::Mandelbrot);
}

#[test]
fn zoom_sequence_nets_out_minus_in() {
    let mut s = ViewState::new();
    for _ in 0..3 {
        assert!(s.zoom_out());
    }
    for _ in 0..5 {
        assert!(s.zoom_in());
    }
    assert_eq!(s.zoom_exp, 3 - 5);
}

#[test]
fn zoom_step_exact_values() {
    // 0.1 * zoom at zoom 3 is exactly 3/10.
    assert_eq!(zoom_step(0), Some((3, 10)));
    // Two zoom-outs: 0.3 * 1.1^2 = 363/1000.
    assert_eq!(zoom_step(2), Some((363, 1000)));
    // One zoom-in: 0.3 / 1.1 = 30/110.
    assert_eq!(zoom_step(-1), Some((30, 110)));
    // Far outside the representable range nothing is offered.
    assert_eq!(zoom_step(100), None);
    assert_eq!(zoom_step(-100), None);
}

#[test]
fn move_center_exact_step() {
    let mut s = ViewState::new();
    assert!(s.move_center(Direction::Left));
    // 1/2 + 3/10 = 16/20 unreduced.
    assert_eq!(s.center_x, Rat { num: 16, den: 20 });
    assert_eq!(s.center_y, Rat { num: 1, den: 4 });
}

#[test]
fn move_center_round_trip_returns_exactly() {
    let mut s = ViewState::new();
    let orig = s.center_x;
    assert!(s.move_center(Direction::Left));
    assert!(s.move_center(Direction::Right));
    // Same rational value as before, by cross multiplication.
    assert_eq!(
        (s.center_x.num as i128) * (orig.den as i128),
        (orig.num as i128) * (s.center_x.den as i128)
    );
    let orig_y = s.center_y;
    assert!(s.move_center(Direction::Up));
    assert!(s.move_center(Direction::Down));
    assert_eq!(
        (s.center_y.num as i128) * (orig_y.den as i128),
        (orig_y.num as i128) * (s.center_y.den as i128)
    );
}

#[test]
fn move_center_unrepresentable_is_unchanged() {
    let mut s = ViewState::new();
    s.zoom_exp = 100;
    let before = s;
    assert!(!s.move_center(Direction::Left));
    assert_eq!(s, before);
}

#[test]
fn pan_moves_seed_by_hundredths() {
    let mut s = ViewState::new();
    assert!(s.pan(Direction::Left));
    assert!(s.pan(Direction::Left));
    assert!(s.pan(Direction::Up));
    assert_eq!(s.start_x, -2);
    assert_eq!(s.start_y, 1);
    // Center and zoom are untouched by seed pans.
    assert_eq!(s.center_x, Rat { num: 1, den: 2 });
    assert_eq!(s.zoom_exp, 0);
}

#[test]
fn palette_shift_is_unclamped() {
    let mut s = ViewState::new();
    for _ in 0..60 {
        assert!(s.shift_palette(false));
    }
    assert_eq!(s.palette, -10);
    for _ in 0..5 {
        assert!(s.shift_palette(true));
    }
    assert_eq!(s.palette, -5);
}

#[test]
fn reset_restores_defaults_with_palette_zero() {
    let mut s = ViewState::new();
    assert!(s.zoom_out());
    assert!(s.move_center(Direction::Down));
    assert!(s.pan(Direction::Right));
    assert!(s.shift_palette(true));
    assert!(s.select_set(FractalSet::Julia));
    assert!(s.reset());
    assert_eq!(s.zoom_exp, 0);
    assert_eq!(s.center_x, Rat { num: 1, den: 2 });
    assert_eq!(s.center_y, Rat { num: 1, den: 4 });
    assert_eq!(s.start_x, 0);
    assert_eq!(s.start_y, 0);
    // Reset goes to palette offset 0, not the startup value 0.5.
    assert_eq!(s.palette, 0);
    assert_ne!(s.palette, ViewState::new().palette);
    // The active set survives a reset.
    assert_eq!(s.set, FractalSet::Julia);
}

#[test]
fn reset_of_reset_state_reports_unchanged() {
    let mut s = ViewState::new();
    assert!(s.reset());
    assert!(!s.reset());
}

#[test]
fn select_same_set_reports_unchanged() {
    let mut s = ViewState::new();
    assert!(!s.select_set(FractalSet::Mandelbrot));
    assert_eq!(s.set, FractalSet::Mandelbrot);
    assert!(s.select_set(FractalSet::Julia));
    assert!(!s.select_set(FractalSet::Julia));
    assert_eq!(s.set, FractalSet::Julia);
}

#[test]
fn router_set_keys_gate_redraw() {
    let mut s = ViewState::new();
    // Already Mandelbrot: M asks for no redraw.
    assert!(!handle_key(&mut s, Key::KeyM, Phase::Pressed));
    assert!(handle_key(&mut s, Key::KeyJ, Phase::Pressed));
    assert!(!handle_key(&mut s, Key::KeyJ, Phase::Pressed));
    assert_eq!(s.set, FractalSet::Julia);
}

#[test]
fn router_continuous_keys_act_on_both_phases() {
    let mut s = ViewState::new();
    assert!(handle_key(&mut s, Key::ArrowRight, Phase::Pressed));
    assert!(handle_key(&mut s, Key::ArrowRight, Phase::Released));
    assert_eq!(s.start_x, 2);
    assert!(handle_key(&mut s, Key::ShiftLeft, Phase::Pressed));
    assert!(handle_key(&mut s, Key::ShiftRight, Phase::Released));
    assert_eq!(s.zoom_exp, -2);
    assert!(handle_key(&mut s, Key::ControlRight, Phase::Released));
    assert_eq!(s.zoom_exp, -1);
    assert!(handle_key(&mut s, Key::KeyA, Phase::Released));
    assert!(handle_key(&mut s, Key::NumpadAdd, Phase::Pressed));
    assert_eq!(s.palette, 51);
    assert!(handle_key(&mut s, Key::Minus, Phase::Released));
    assert!(handle_key(&mut s, Key::NumpadSubtract, Phase::Released));
    assert_eq!(s.palette, 49);
}

#[test]
fn router_reset_acts_only_on_release() {
    let mut s = ViewState::new();
    assert!(handle_key(&mut s, Key::ArrowUp, Phase::Pressed));
    let moved = s;
    assert!(!handle_key(&mut s, Key::Numpad0, Phase::Pressed));
    assert_eq!(s, moved);
    assert!(handle_key(&mut s, Key::Numpad0, Phase::Released));
    assert_eq!(s.start_y, 0);
    assert_eq!(s.palette, 0);
}

#[test]
fn router_ignores_unknown_and_help_keys() {
    let mut s = ViewState::new();
    let before = s;
    assert!(!handle_key(&mut s, Key::Other, Phase::Pressed));
    assert!(!handle_key(&mut s, Key::KeyH, Phase::Released));
    assert_eq!(s, before);
}

#[test]
fn zoom_saturates_at_the_rim_without_panic() {
    let mut s = ViewState::new();
    s.zoom_exp = i32::MIN;
    assert!(!s.zoom_in());
    assert_eq!(s.zoom_exp, i32::MIN);
    s.zoom_exp = i32::MAX;
    assert!(!s.zoom_out());
    assert_eq!(s.zoom_exp, i32::MAX);
}
