use vim_navigation::accel::SUBPIXELS;
use vim_navigation::actions::{Action, Button, Direction, SyntheticEvent};
use vim_navigation::config::{NavigationConfig, VimNavConfig};
use vim_navigation::cursor::{CursorState, SetupError};
use vim_navigation::keys::Key;
use vim_navigation::navigator::{InputEvent, Mode, Navigator, Reaction};

fn config() -> NavigationConfig {
    VimNavConfig::default().resolve().unwrap()
}

fn screen() -> Navigator {
    Navigator::new(1920, 1080, config()).unwrap()
}

fn press(n: &mut Navigator, k: Key, now: u64) -> Reaction {
    n.handle_event(InputEvent::KeyPress(k), now)
}

fn release(n: &mut Navigator, k: Key, now: u64) -> Reaction {
    n.handle_event(InputEvent::KeyRelease(k), now)
}

const PASS: Reaction = Reaction { suppress: false, action: None };
const SWALLOW: Reaction = Reaction { suppress: true, action: None };

#[test]
fn starts_centred_in_navigation_mode() {
    let n = screen();
    assert_eq!(n.mode(), Mode::Navigation);
    assert_eq!(n.cursor().x(), 960 * SUBPIXELS);
    assert_eq!(n.cursor().y(), 540 * SUBPIXELS);
    assert_eq!(
        n.current_position(),
        Action::MoveTo { x: 960_000, y: 540_000 }
    );
}

#[test]
fn bad_screens_and_configs_are_refused() {
    assert_eq!(Navigator::new(0, 1080, config()).err(), Some(SetupError::BadScreen));
    assert_eq!(Navigator::new(1920, 0, config()).err(), Some(SetupError::BadScreen));
    assert_eq!(
        Navigator::new(1 << 40, 1080, config()).err(),
        Some(SetupError::BadScreen)
    );
    let mut c = config();
    c.precision_divisor = 0;
    assert_eq!(Navigator::new(1920, 1080, c).err(), Some(SetupError::BadConfig));
    let one = CursorState::new(1, 1, config()).ok().unwrap();
    assert_eq!((one.x(), one.y()), (0, 0));
}

#[test]
fn scenario_c_left_move_stops_at_zero() {
    let mut c = config();
    c.initial_move_step = 1950; // 1950 + 50 * 2^0 = 2000 px at once
    let mut n = Navigator::new(1920, 1080, c).unwrap();
    assert_eq!(n.cursor().x(), 960 * SUBPIXELS);
    assert_eq!(press(&mut n, Key::KeyH, 0), SWALLOW);
    let ev = n.tick(0);
    assert_eq!(ev, Some(SyntheticEvent::MouseMove { x: 0, y: 540_000 }));
    assert_eq!(n.cursor().x(), 0);
    assert_eq!(n.tick(10), Some(SyntheticEvent::MouseMove { x: 0, y: 540_000 }));
}

#[test]
fn right_and_down_moves_stop_at_the_last_pixel() {
    let mut c = config();
    c.initial_move_step = 5000;
    let mut n = Navigator::new(1920, 1080, c).unwrap();
    press(&mut n, Key::KeyL, 0);
    press(&mut n, Key::KeyJ, 0);
    assert_eq!(
        n.tick(0),
        Some(SyntheticEvent::MouseMove { x: 1919 * SUBPIXELS, y: 1079 * SUBPIXELS })
    );
}

#[test]
fn scenario_d_goto_bottom() {
    let mut n = screen();
    press(&mut n, Key::KeyK, 0);
    n.tick(3000);
    assert_eq!(press(&mut n, Key::ShiftLeft, 3000), PASS);
    let r = press(&mut n, Key::KeyG, 3000);
    let x = n.cursor().x();
    assert_eq!(r.suppress, true);
    assert_eq!(r.action, Some(Action::MoveTo { x, y: 1079 * SUBPIXELS }));
    assert_eq!(n.cursor().y(), 1_079_000);
}

#[test]
fn goto_top_without_shift() {
    let mut n = screen();
    let r = press(&mut n, Key::KeyG, 0);
    assert_eq!(r, Reaction { suppress: true, action: Some(Action::MoveTo { x: 960_000, y: 0 }) });
    assert_eq!(n.cursor().y(), 0);
}

#[test]
fn held_key_accelerates_each_tick() {
    let mut n = screen();
    press(&mut n, Key::KeyL, 1000);
    assert_eq!(n.tick(1000), Some(SyntheticEvent::MouseMove { x: 1_011_000, y: 540_000 }));
    assert_eq!(n.tick(2000), Some(SyntheticEvent::MouseMove { x: 1_112_000, y: 540_000 }));
    assert_eq!(release(&mut n, Key::KeyL, 2100), SWALLOW);
    assert_eq!(n.tick(2200), None);
}

#[test]
fn precision_key_slows_movement() {
    let mut n = screen();
    assert_eq!(press(&mut n, Key::Space, 0), SWALLOW);
    press(&mut n, Key::KeyH, 0);
    assert_eq!(n.tick(0), Some(SyntheticEvent::MouseMove { x: 960_000 - 510, y: 540_000 }));
    assert_eq!(release(&mut n, Key::Space, 0), SWALLOW);
    assert_eq!(n.tick(0), Some(SyntheticEvent::MouseMove { x: 960_000 - 510 - 51_000, y: 540_000 }));
}

#[test]
fn tracker_tables_follow_press_and_release() {
    let mut c = CursorState::new(800, 600, config()).ok().unwrap();
    assert!(!c.is_key_pressed(Key::KeyH));
    c.start_key_press(Key::KeyH, 5);
    assert!(c.is_key_pressed(Key::KeyH));
    assert_eq!(c.update_speed(Key::KeyH, 5), 51_000);
    c.start_key_press(Key::KeyH, 1005);
    assert_eq!(c.update_speed(Key::KeyH, 1005), 51_000);
    c.stop_key_press(Key::KeyH);
    assert!(!c.is_key_pressed(Key::KeyH));
    assert_eq!(c.update_speed(Key::KeyH, 5000), 1000);
    c.stop_key_press(Key::KeyH);
    c.start_key_press(Key::KeyJ, 0);
    c.start_key_press(Key::KeyK, 0);
    c.clear_all();
    assert!(!c.is_key_pressed(Key::KeyJ));
    assert!(!c.is_key_pressed(Key::KeyK));
}

#[test]
fn clock_going_back_counts_as_no_hold() {
    let mut c = CursorState::new(800, 600, config()).ok().unwrap();
    c.start_key_press(Key::KeyH, 5000);
    assert_eq!(c.update_speed(Key::KeyH, 1000), 51_000);
}

#[test]
fn typing_mode_entry_stops_drift() {
    let mut n = screen();
    press(&mut n, Key::KeyH, 0);
    press(&mut n, Key::KeyJ, 0);
    assert!(n.tick(100).is_some());
    assert_eq!(press(&mut n, Key::Escape, 200), SWALLOW);
    assert_eq!(n.mode(), Mode::Typing);
    assert!(!n.cursor().is_key_pressed(Key::KeyH));
    assert!(!n.cursor().is_key_pressed(Key::KeyJ));
    let (x, y) = (n.cursor().x(), n.cursor().y());
    assert_eq!(n.tick(5000), None);
    assert_eq!((n.cursor().x(), n.cursor().y()), (x, y));
    // the releases never arrive; navigation resumes
    assert_eq!(release(&mut n, Key::Escape, 5100), PASS);
    assert_eq!(press(&mut n, Key::Escape, 6000), SWALLOW);
    assert_eq!(n.mode(), Mode::Navigation);
    assert_eq!(n.tick(7000), None);
}

#[test]
fn typing_mode_forwards_everything_but_the_toggle() {
    let mut n = screen();
    press(&mut n, Key::Escape, 0);
    for k in [Key::KeyH, Key::Return, Key::KeyI, Key::KeyV, Key::KeyG, Key::KeyY, Key::KeyP, Key::Space, Key::Other] {
        assert_eq!(press(&mut n, k, 1), PASS);
        assert_eq!(release(&mut n, k, 2), PASS);
    }
    assert_eq!(n.tick(3), None);
    assert_eq!(n.handle_event(InputEvent::Other, 4), PASS);
}

#[test]
fn entering_typing_resets_precision_but_not_shift() {
    let mut n = screen();
    press(&mut n, Key::ShiftRight, 0);
    press(&mut n, Key::Space, 0);
    press(&mut n, Key::Escape, 0);
    assert!(n.cursor().shift_pressed());
    assert!(!n.cursor().precision_pressed());
}

#[test]
fn shift_direction_scrolls() {
    let mut n = screen();
    press(&mut n, Key::ShiftLeft, 0);
    let r = press(&mut n, Key::KeyK, 0);
    assert_eq!(r, Reaction { suppress: true, action: Some(Action::Scroll(Direction::Up)) });
    assert!(!n.cursor().is_key_pressed(Key::KeyK));
    assert_eq!(press(&mut n, Key::KeyH, 0).action, Some(Action::Scroll(Direction::Left)));
    assert_eq!(press(&mut n, Key::KeyJ, 0).action, Some(Action::Scroll(Direction::Down)));
    assert_eq!(press(&mut n, Key::KeyL, 0).action, Some(Action::Scroll(Direction::Right)));
    release(&mut n, Key::ShiftLeft, 0);
    assert!(!n.cursor().shift_pressed());
    assert_eq!(press(&mut n, Key::KeyK, 0), SWALLOW);
    assert!(n.cursor().is_key_pressed(Key::KeyK));
}

#[test]
fn one_shot_bindings() {
    let mut n = screen();
    assert_eq!(press(&mut n, Key::Return, 0).action, Some(Action::Click));
    assert_eq!(press(&mut n, Key::KeyI, 0).action, Some(Action::RightClick));
    assert_eq!(press(&mut n, Key::KeyY, 0).action, Some(Action::Yank));
    assert_eq!(press(&mut n, Key::KeyP, 0).action, Some(Action::Paste));
    assert_eq!(press(&mut n, Key::KeyV, 0).action, Some(Action::StartSelection));
    assert!(n.cursor().selection_active());
    assert_eq!(press(&mut n, Key::KeyV, 0).action, Some(Action::EndSelection));
    assert!(!n.cursor().selection_active());
    assert_eq!(release(&mut n, Key::Return, 0), PASS);
}

#[test]
fn unbound_keys_and_shift_pass_through() {
    let mut n = screen();
    assert_eq!(press(&mut n, Key::KeyA, 0), PASS);
    assert_eq!(press(&mut n, Key::Other, 0), PASS);
    assert_eq!(press(&mut n, Key::ShiftLeft, 0), PASS);
    assert_eq!(release(&mut n, Key::ShiftLeft, 0), PASS);
    assert_eq!(n.tick(0), None);
}

#[test]
fn action_event_sequences() {
    assert_eq!(
        Action::Click.events(),
        vec![SyntheticEvent::ButtonPress(Button::Left), SyntheticEvent::ButtonRelease(Button::Left)]
    );
    assert_eq!(
        Action::RightClick.events(),
        vec![SyntheticEvent::ButtonPress(Button::Right), SyntheticEvent::ButtonRelease(Button::Right)]
    );
    assert_eq!(Action::StartSelection.events(), vec![SyntheticEvent::ButtonPress(Button::Left)]);
    assert_eq!(Action::EndSelection.events(), vec![SyntheticEvent::ButtonRelease(Button::Left)]);
    assert_eq!(
        Action::MoveTo { x: 3, y: 4 }.events(),
        vec![SyntheticEvent::MouseMove { x: 3, y: 4 }]
    );
    assert_eq!(
        Action::Yank.events(),
        vec![
            SyntheticEvent::KeyPress(Key::MetaLeft),
            SyntheticEvent::KeyPress(Key::KeyC),
            SyntheticEvent::KeyRelease(Key::KeyC),
            SyntheticEvent::KeyRelease(Key::MetaLeft),
        ]
    );
    assert_eq!(
        Action::Paste.events(),
        vec![
            SyntheticEvent::KeyPress(Key::MetaLeft),
            SyntheticEvent::KeyPress(Key::KeyV),
            SyntheticEvent::KeyRelease(Key::KeyV),
            SyntheticEvent::KeyRelease(Key::MetaLeft),
        ]
    );
}

#[test]
fn scroll_bursts() {
    let up = SyntheticEvent::Wheel { delta_x: 0, delta_y: 120 };
    let down = SyntheticEvent::Wheel { delta_x: 0, delta_y: -120 };
    let left = SyntheticEvent::Wheel { delta_x: -120, delta_y: 0 };
    let right = SyntheticEvent::Wheel { delta_x: 120, delta_y: 0 };
    assert_eq!(Action::Scroll(Direction::Up).events(), vec![up; 3]);
    assert_eq!(Action::Scroll(Direction::Down).events(), vec![down; 3]);
    assert_eq!(Action::Scroll(Direction::Left).events(), vec![left; 3]);
    assert_eq!(Action::Scroll(Direction::Right).events(), vec![right; 3]);
}

#[test]
fn two_axes_collapse_into_one_move() {
    let mut n = screen();
    press(&mut n, Key::KeyH, 0);
    press(&mut n, Key::KeyK, 0);
    assert_eq!(
        n.tick(0),
        Some(SyntheticEvent::MouseMove { x: 960_000 - 51_000, y: 540_000 - 51_000 })
    );
}
