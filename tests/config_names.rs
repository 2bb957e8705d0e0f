use vim_navigation::config::{InvalidTunable, VimNavConfig};
use vim_navigation::keys::{key_from_name, string_to_key, Key};

#[test]
fn names_in_any_case() {
    assert_eq!(string_to_key("H"), Some(Key::KeyH));
    assert_eq!(string_to_key("ESC"), Some(Key::Escape));
    assert_eq!(string_to_key("Enter"), Some(Key::Return));
    assert_eq!(string_to_key("Shift_G"), Some(Key::KeyG));
    assert_eq!(string_to_key("SPACE"), Some(Key::Space));
    assert_eq!(string_to_key("q"), None);
    assert_eq!(string_to_key(""), None);
}

#[test]
fn lower_case_names() {
    assert_eq!(key_from_name("return"), Some(Key::Return));
    assert_eq!(key_from_name("escape"), Some(Key::Escape));
    assert_eq!(key_from_name("y"), Some(Key::KeyY));
    assert_eq!(key_from_name("Y"), None);
    assert_eq!(key_from_name("hh"), None);
}

#[test]
fn default_settings_resolve() {
    let c = VimNavConfig::default().resolve().unwrap();
    assert_eq!(c.initial_move_step, 1);
    assert_eq!(c.max_move_step, None);
    assert_eq!(c.acceleration_base, 2);
    assert_eq!(c.acceleration_multiplier, 50);
    assert_eq!(c.repeat_delay_ms, 30);
    assert_eq!(c.move_delay_ms, 15);
    assert_eq!(c.precision_divisor, 100);
    let k = c.keys;
    assert_eq!(
        [k.left, k.down, k.up, k.right],
        [Key::KeyH, Key::KeyJ, Key::KeyK, Key::KeyL]
    );
    assert_eq!(k.click, Key::Return);
    assert_eq!(k.toggle_mode, Key::Escape);
    assert_eq!(k.right_click, Key::KeyI);
    assert_eq!(k.select_toggle, Key::KeyV);
    assert_eq!(k.goto_top, Key::KeyG);
    assert_eq!(k.goto_bottom, Key::KeyG);
    assert_eq!(k.yank, Key::KeyY);
    assert_eq!(k.paste, Key::KeyP);
}

#[test]
fn unknown_names_fall_back() {
    let mut s = VimNavConfig::default();
    s.key_left = "nonsense".to_string();
    s.key_click = "SPACE".to_string();
    s.key_toggle_mode = "Esc".to_string();
    let c = s.resolve().unwrap();
    assert_eq!(c.keys.left, Key::KeyH);
    assert_eq!(c.keys.click, Key::Space);
    assert_eq!(c.keys.toggle_mode, Key::Escape);
}

#[test]
fn invalid_tunables_are_rejected() {
    let mut s = VimNavConfig::default();
    s.acceleration_base = 0;
    assert_eq!(s.resolve().unwrap_err(), InvalidTunable::ZeroBase);
    s.precision_divisor = 0;
    assert_eq!(s.resolve().unwrap_err(), InvalidTunable::ZeroBase);
    s.acceleration_base = 2;
    assert_eq!(s.resolve().unwrap_err(), InvalidTunable::ZeroDivisor);
}
