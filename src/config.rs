use vstd::prelude::*;

use crate::keys::{key_named, lower_of, string_to_key, Key};

verus! {

/// The key bound to each logical action.
#[derive(Clone, Copy, Debug)]
pub struct Bindings {
    pub left: Key,
    pub down: Key,
    pub up: Key,
    pub right: Key,
    pub click: Key,
    pub toggle_mode: Key,
    pub right_click: Key,
    pub select_toggle: Key,
    pub goto_top: Key,
    pub goto_bottom: Key,
    pub yank: Key,
    pub paste: Key,
}

/// The tunables and key table that the navigator runs with, fixed once
/// loaded. Distances are in whole pixels and times in milliseconds.
#[derive(Clone, Copy, Debug)]
pub struct NavigationConfig {
    /// Speed, in pixels per tick, that a held key starts from.
    pub initial_move_step: u64,
    /// Ceiling on the speed in pixels per tick; `None` leaves it unbounded.
    pub max_move_step: Option<u64>,
    /// Growth factor of the speed per second of holding; at least 1.
    pub acceleration_base: u64,
    /// Pixels per tick that the exponential term is worth.
    pub acceleration_multiplier: u64,
    /// Period of the mover.
    pub repeat_delay_ms: u64,
    /// Pause after each injected event.
    pub move_delay_ms: u64,
    /// How many times slower movement is while the precision key is held;
    /// at least 1.
    pub precision_divisor: u64,
    pub keys: Bindings,
}

impl NavigationConfig {
    /// The acceleration stays non-decreasing and the precision division is
    /// defined.
    pub open spec fn wf(&self) -> bool {
        self.acceleration_base >= 1 && self.precision_divisor >= 1
    }
}

/// The settings as an operator writes them: tunables and key names.
#[derive(Clone, Debug)]
pub struct VimNavConfig {
    pub initial_move_step: u64,
    pub max_move_step: Option<u64>,
    pub acceleration_base: u64,
    pub acceleration_multiplier: u64,
    pub repeat_delay_ms: u64,
    pub move_delay_ms: u64,
    pub precision_divisor: u64,
    pub key_left: String,
    pub key_down: String,
    pub key_up: String,
    pub key_right: String,
    pub key_click: String,
    pub key_toggle_mode: String,
    pub key_right_click: String,
    pub key_select_toggle: String,
    pub key_goto_top: String,
    pub key_goto_bottom: String,
    pub key_yank: String,
    pub key_paste: String,
}

impl Default for VimNavConfig {
    fn default() -> (r: VimNavConfig)
        ensures
            r.initial_move_step == 1,
            r.max_move_step is None,
            r.acceleration_base == 2,
            r.acceleration_multiplier == 50,
            r.repeat_delay_ms == 30,
            r.move_delay_ms == 15,
            r.precision_divisor == 100,
            r.key_left@ == "h"@,
            r.key_down@ == "j"@,
            r.key_up@ == "k"@,
            r.key_right@ == "l"@,
            r.key_click@ == "return"@,
            r.key_toggle_mode@ == "escape"@,
            r.key_right_click@ == "i"@,
            r.key_select_toggle@ == "v"@,
            r.key_goto_top@ == "g"@,
            r.key_goto_bottom@ == "shift_g"@,
            r.key_yank@ == "y"@,
            r.key_paste@ == "p"@,
    {
        VimNavConfig {
            initial_move_step: 1,
            max_move_step: None,
            acceleration_base: 2,
            acceleration_multiplier: 50,
            repeat_delay_ms: 30,
            move_delay_ms: 15,
            precision_divisor: 100,
            key_left: "h".to_owned(),
            key_down: "j".to_owned(),
            key_up: "k".to_owned(),
            key_right: "l".to_owned(),
            key_click: "return".to_owned(),
            key_toggle_mode: "escape".to_owned(),
            key_right_click: "i".to_owned(),
            key_select_toggle: "v".to_owned(),
            key_goto_top: "g".to_owned(),
            key_goto_bottom: "shift_g".to_owned(),
            key_yank: "y".to_owned(),
            key_paste: "p".to_owned(),
        }
    }
}

/// Why settings cannot be used.
#[derive(Clone, Copy, Debug, PartialEq, Eq, Structural)]
pub enum InvalidTunable {
    /// An acceleration base of zero would make the speed fall with time.
    ZeroBase,
    /// A precision divisor of zero cannot divide.
    ZeroDivisor,
}

/// The key that `name` stands for in any letter case, or `fallback` where it
/// names none.
pub open spec fn binding(name: Seq<char>, fallback: Key) -> Key {
    match key_named(lower_of(name)) {
        Some(k) => k,
        None => fallback,
    }
}

/// The key table of `c`, each unknown name replaced by the usual key.
pub open spec fn resolved_bindings(c: VimNavConfig) -> Bindings {
    Bindings {
        left: binding(c.key_left@, Key::KeyH),
        down: binding(c.key_down@, Key::KeyJ),
        up: binding(c.key_up@, Key::KeyK),
        right: binding(c.key_right@, Key::KeyL),
        click: binding(c.key_click@, Key::Return),
        toggle_mode: binding(c.key_toggle_mode@, Key::Escape),
        right_click: binding(c.key_right_click@, Key::KeyI),
        select_toggle: binding(c.key_select_toggle@, Key::KeyV),
        goto_top: binding(c.key_goto_top@, Key::KeyG),
        goto_bottom: binding(c.key_goto_bottom@, Key::KeyG),
        yank: binding(c.key_yank@, Key::KeyY),
        paste: binding(c.key_paste@, Key::KeyP),
    }
}

/// The configuration that `c` describes.
pub open spec fn resolved(c: VimNavConfig) -> NavigationConfig {
    NavigationConfig {
        initial_move_step: c.initial_move_step,
        max_move_step: c.max_move_step,
        acceleration_base: c.acceleration_base,
        acceleration_multiplier: c.acceleration_multiplier,
        repeat_delay_ms: c.repeat_delay_ms,
        move_delay_ms: c.move_delay_ms,
        precision_divisor: c.precision_divisor,
        keys: resolved_bindings(c),
    }
}

/// The key that `name` stands for in any letter case, or `fallback`.
fn bind(name: &String, fallback: Key) -> (r: Key)
    ensures
        r == binding(name@, fallback),
{
    match string_to_key(name.as_str()) {
        Some(k) => k,
        None => fallback,
    }
}

impl VimNavConfig {
    /// Checks the tunables and turns the key names into keys once, so that
    /// no name is looked up while events flow.
    pub fn resolve(&self) -> (r: Result<NavigationConfig, InvalidTunable>)
        ensures
            self.acceleration_base == 0 ==> r == Err::<NavigationConfig, InvalidTunable>(
                InvalidTunable::ZeroBase,
            ),
            self.acceleration_base >= 1 && self.precision_divisor == 0 ==> r == Err::<
                NavigationConfig,
                InvalidTunable,
            >(InvalidTunable::ZeroDivisor),
            self.acceleration_base >= 1 && self.precision_divisor >= 1 ==> r == Ok::<
                NavigationConfig,
                InvalidTunable,
            >(resolved(*self)),
            r is Ok ==> r->Ok_0.wf(),
    {
        if self.acceleration_base == 0 {
            return Err(InvalidTunable::ZeroBase);
        }
        if self.precision_divisor == 0 {
            return Err(InvalidTunable::ZeroDivisor);
        }
        let keys = Bindings {
            left: bind(&self.key_left, Key::KeyH),
            down: bind(&self.key_down, Key::KeyJ),
            up: bind(&self.key_up, Key::KeyK),
            right: bind(&self.key_right, Key::KeyL),
            click: bind(&self.key_click, Key::Return),
            toggle_mode: bind(&self.key_toggle_mode, Key::Escape),
            right_click: bind(&self.key_right_click, Key::KeyI),
            select_toggle: bind(&self.key_select_toggle, Key::KeyV),
            goto_top: bind(&self.key_goto_top, Key::KeyG),
            goto_bottom: bind(&self.key_goto_bottom, Key::KeyG),
            yank: bind(&self.key_yank, Key::KeyY),
            paste: bind(&self.key_paste, Key::KeyP),
        };
        Ok(NavigationConfig {
            initial_move_step: self.initial_move_step,
            max_move_step: self.max_move_step,
            acceleration_base: self.acceleration_base,
            acceleration_multiplier: self.acceleration_multiplier,
            repeat_delay_ms: self.repeat_delay_ms,
            move_delay_ms: self.move_delay_ms,
            precision_divisor: self.precision_divisor,
            keys,
        })
    }
}

} // verus!
