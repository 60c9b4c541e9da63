use bowdraw::controls::{
    AxiomaticDirection, Controls, DiscreteNotch, InputConfig, Key, KeyAction, Movement, PressingState,
};

fn config() -> InputConfig {
    InputConfig {
        up: Key::Code(119),
        down: Key::Code(115),
        left: Key::Code(97),
        right: Key::Code(100),
        double_tap_window: 250_000_000,
    }
}

#[test]
fn reset_idles_an_axis() {
    let mut n = DiscreteNotch::Pos;
    n.reset();
    assert_eq!(n, DiscreteNotch::Zero);
    let mut n = DiscreteNotch::Neg;
    n.reset();
    assert_eq!(n, DiscreteNotch::Zero);
}

#[test]
fn new_pressing_state_is_all_zero() {
    let s = PressingState::new();
    assert!(s.is_all_zero());
    assert_eq!(s.movement(), Movement::Still);
}

#[test]
fn is_all_zero_needs_both_axes_idle() {
    let s = PressingState { vertical: DiscreteNotch::Zero, horizontal: DiscreteNotch::Pos };
    assert!(!s.is_all_zero());
    let s = PressingState { vertical: DiscreteNotch::Neg, horizontal: DiscreteNotch::Zero };
    assert!(!s.is_all_zero());
}

#[test]
fn movement_kinds() {
    let s = PressingState { vertical: DiscreteNotch::Zero, horizontal: DiscreteNotch::Pos };
    assert_eq!(s.movement(), Movement::Axial);
    let s = PressingState { vertical: DiscreteNotch::Neg, horizontal: DiscreteNotch::Pos };
    assert_eq!(s.movement(), Movement::Diagonal);
}

#[test]
fn release_undoes_press() {
    for dir in [AxiomaticDirection::Up, AxiomaticDirection::Down, AxiomaticDirection::Left, AxiomaticDirection::Right] {
        let mut s = PressingState::new();
        s.press(dir);
        assert!(!s.is_all_zero());
        s.release(dir);
        assert!(s.is_all_zero());
    }
}

#[test]
fn later_opposite_press_wins() {
    let mut s = PressingState::new();
    s.press(AxiomaticDirection::Up);
    s.press(AxiomaticDirection::Down);
    s.release(AxiomaticDirection::Up);
    assert_eq!(s.vertical, DiscreteNotch::Pos);
    s.release(AxiomaticDirection::Down);
    assert_eq!(s.vertical, DiscreteNotch::Zero);
}

#[test]
fn axes_are_independent() {
    let mut s = PressingState::new();
    s.press(AxiomaticDirection::Left);
    s.press(AxiomaticDirection::Up);
    s.release(AxiomaticDirection::Up);
    assert_eq!(s.horizontal, DiscreteNotch::Neg);
    assert_eq!(s.vertical, DiscreteNotch::Zero);
}

#[test]
fn repeated_key_is_ignored() {
    let mut c = Controls::new(config(), 0);
    assert_eq!(c.key_down(Key::Code(119), true, 10), KeyAction::Repeat);
    assert!(c.pressing_state.is_all_zero());
}

#[test]
fn escape_and_f4() {
    let mut c = Controls::new(config(), 0);
    assert_eq!(c.key_down(Key::Escape, false, 10), KeyAction::Quit);
    assert_eq!(c.key_down(Key::F4, false, 10), KeyAction::ToggleFullscreen);
    assert_eq!(c.key_down(Key::Code(1), false, 10), KeyAction::Unbound);
    assert!(c.pressing_state.is_all_zero());
}

#[test]
fn escape_wins_over_a_binding() {
    let mut cfg = config();
    cfg.up = Key::Escape;
    let mut c = Controls::new(cfg, 0);
    assert_eq!(c.key_down(Key::Escape, false, 10), KeyAction::Quit);
    assert!(c.pressing_state.is_all_zero());
}

#[test]
fn direction_key_moves_and_detects_double_tap() {
    // the last tap starts out as an up tap at creation time
    let mut c = Controls::new(config(), 1_000_000_000);
    assert_eq!(
        c.key_down(Key::Code(100), false, 2_000_000_000),
        KeyAction::Move { dir: AxiomaticDirection::Right, double_tap: false }
    );
    assert_eq!(c.pressing_state.horizontal, DiscreteNotch::Pos);
    c.key_up(Key::Code(100));
    assert_eq!(c.pressing_state.horizontal, DiscreteNotch::Zero);
    assert_eq!(
        c.key_down(Key::Code(100), false, 2_250_000_000),
        KeyAction::Move { dir: AxiomaticDirection::Right, double_tap: true }
    );
    assert_eq!(
        c.key_down(Key::Code(100), false, 2_500_000_001),
        KeyAction::Move { dir: AxiomaticDirection::Right, double_tap: false }
    );
}

#[test]
fn tap_in_another_direction_is_no_double_tap() {
    let mut c = Controls::new(config(), 0);
    assert!(!c.dir_tap(10, AxiomaticDirection::Left));
    assert!(!c.dir_tap(20, AxiomaticDirection::Right));
    assert!(c.dir_tap(30, AxiomaticDirection::Right));
}

#[test]
fn first_up_tap_right_after_creation_is_a_double_tap() {
    let mut c = Controls::new(config(), 100);
    assert!(c.dir_tap(200, AxiomaticDirection::Up));
}

#[test]
fn tap_before_last_tap_counts_as_no_time_elapsed() {
    let mut c = Controls::new(config(), 1_000);
    assert!(c.dir_tap(500, AxiomaticDirection::Up));
}

#[test]
fn key_up_of_unbound_key_changes_nothing() {
    let mut c = Controls::new(config(), 0);
    c.key_down(Key::Code(119), false, 10);
    c.key_up(Key::Code(5));
    assert_eq!(c.pressing_state.vertical, DiscreteNotch::Neg);
    c.key_up(Key::Code(115));
    assert_eq!(c.pressing_state.vertical, DiscreteNotch::Neg);
    c.key_up(Key::Code(119));
    assert_eq!(c.pressing_state.vertical, DiscreteNotch::Zero);
}
