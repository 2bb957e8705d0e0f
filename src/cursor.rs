use vstd::prelude::*;

use std::collections::HashMap;

use crate::accel::{min, speed, speed_of, SPEED_LIMIT, SUBPIXELS};
use crate::config::NavigationConfig;
use crate::keys::{key_code, Key};

verus! {

broadcast use vstd::std_specs::hash::group_hash_axioms;

/// Largest screen side, in pixels, that the navigator accepts.
pub const MAX_SCREEN_SIDE: u64 = 0xffff_ffff;

/// The abstract cursor: position in thousandths of a pixel, screen size in
/// pixels, the held keys with their press instants (milliseconds) and last
/// speeds, and the modifier flags.
pub ghost struct CursorModel {
    pub x: nat,
    pub y: nat,
    pub width: nat,
    pub height: nat,
    pub press_start: Map<u32, u64>,
    pub speeds: Map<u32, u64>,
    pub shift_held: bool,
    pub precision_held: bool,
    pub selection_active: bool,
    pub config: NavigationConfig,
}

/// Largest coordinate, in thousandths of a pixel, on a side of `n` pixels.
pub open spec fn last_position(n: nat) -> nat {
    ((n - 1) * SUBPIXELS) as nat
}

/// The middle of a side of `n` pixels, kept on the screen.
pub open spec fn center(n: nat) -> nat {
    min(n * SUBPIXELS / 2, last_position(n) as int) as nat
}

/// The speed that a freshly pressed key is recorded with.
pub open spec fn initial_speed(cfg: NavigationConfig) -> u64 {
    min(cfg.initial_move_step * SUBPIXELS, SPEED_LIMIT as int) as u64
}

/// How long a key pressed at `start` has been held at `now`.
pub open spec fn hold_time(start: u64, now: u64) -> nat {
    if now >= start {
        (now - start) as nat
    } else {
        0
    }
}

impl CursorModel {
    /// The position is on the screen and both key tables hold the same keys.
    pub open spec fn wf(self) -> bool {
        &&& 1 <= self.width <= MAX_SCREEN_SIDE
        &&& 1 <= self.height <= MAX_SCREEN_SIDE
        &&& self.x <= last_position(self.width)
        &&& self.y <= last_position(self.height)
        &&& self.press_start.dom() == self.speeds.dom()
        &&& self.config.wf()
    }

    pub open spec fn is_held(self, key: Key) -> bool {
        self.press_start.contains_key(key_code(key))
    }

    pub open spec fn start(self, key: Key, now: u64) -> CursorModel {
        CursorModel {
            press_start: self.press_start.insert(key_code(key), now),
            speeds: self.speeds.insert(key_code(key), initial_speed(self.config)),
            ..self
        }
    }

    pub open spec fn stop(self, key: Key) -> CursorModel {
        CursorModel {
            press_start: self.press_start.remove(key_code(key)),
            speeds: self.speeds.remove(key_code(key)),
            ..self
        }
    }

    pub open spec fn cleared(self) -> CursorModel {
        CursorModel { press_start: Map::empty(), speeds: Map::empty(), ..self }
    }

    /// The current speed of `key` at `now`, recorded in the speed table; a key
    /// that is not held reports the initial speed and changes nothing.
    pub open spec fn update_speed(self, key: Key, now: u64) -> (CursorModel, u64) {
        if self.is_held(key) {
            let s = speed_of(
                self.config,
                hold_time(self.press_start[key_code(key)], now),
                self.precision_held,
            ) as u64;
            (CursorModel { speeds: self.speeds.insert(key_code(key), s), ..self }, s)
        } else {
            (self, initial_speed(self.config))
        }
    }

    pub open spec fn move_left(self, key: Key, now: u64) -> CursorModel {
        let (c, s) = self.update_speed(key, now);
        CursorModel {
            x: if c.x >= s {
                (c.x - s) as nat
            } else {
                0
            },
            ..c
        }
    }

    pub open spec fn move_right(self, key: Key, now: u64) -> CursorModel {
        let (c, s) = self.update_speed(key, now);
        CursorModel { x: min(c.x + s, last_position(c.width) as int) as nat, ..c }
    }

    pub open spec fn move_up(self, key: Key, now: u64) -> CursorModel {
        let (c, s) = self.update_speed(key, now);
        CursorModel {
            y: if c.y >= s {
                (c.y - s) as nat
            } else {
                0
            },
            ..c
        }
    }

    pub open spec fn move_down(self, key: Key, now: u64) -> CursorModel {
        let (c, s) = self.update_speed(key, now);
        CursorModel { y: min(c.y + s, last_position(c.height) as int) as nat, ..c }
    }

    pub open spec fn to_top(self) -> CursorModel {
        CursorModel { y: 0, ..self }
    }

    pub open spec fn to_bottom(self) -> CursorModel {
        CursorModel { y: last_position(self.height), ..self }
    }
}

/// The position lies on the screen.
pub open spec fn on_screen(c: CursorModel) -> bool {
    c.x <= last_position(c.width) && c.y <= last_position(c.height)
}

/// Whatever speed is requested, every move and every jump to an edge leaves
/// the cursor on the same screen.
pub proof fn lemma_moves_stay_on_screen(c: CursorModel, key: Key, now: u64)
    requires
        c.wf(),
    ensures
        on_screen(c.move_left(key, now)) && c.move_left(key, now).width == c.width
            && c.move_left(key, now).height == c.height,
        on_screen(c.move_right(key, now)) && c.move_right(key, now).width == c.width
            && c.move_right(key, now).height == c.height,
        on_screen(c.move_up(key, now)) && c.move_up(key, now).width == c.width
            && c.move_up(key, now).height == c.height,
        on_screen(c.move_down(key, now)) && c.move_down(key, now).width == c.width
            && c.move_down(key, now).height == c.height,
        on_screen(c.to_top()) && on_screen(c.to_bottom()),
{
}

/// The press-start table and the speed table always hold the same keys:
/// each tracker operation changes both or neither.
pub proof fn lemma_tracker_tables_agree(c: CursorModel, key: Key, now: u64)
    requires
        c.wf(),
    ensures
        c.start(key, now).press_start.dom() == c.start(key, now).speeds.dom(),
        c.stop(key).press_start.dom() == c.stop(key).speeds.dom(),
        c.cleared().press_start.dom() == c.cleared().speeds.dom(),
        c.update_speed(key, now).0.press_start.dom() == c.update_speed(key, now).0.speeds.dom(),
{
    assert(c.start(key, now).press_start.dom() =~= c.start(key, now).speeds.dom());
    assert(c.stop(key).press_start.dom() =~= c.stop(key).speeds.dom());
    assert(c.cleared().press_start.dom() =~= c.cleared().speeds.dom());
    assert(c.update_speed(key, now).0.press_start.dom() =~= c.update_speed(key, now).0.speeds.dom());
}

/// Every cursor operation keeps a well-formed cursor well-formed.
pub proof fn lemma_cursor_ops_keep_wf(c: CursorModel, key: Key, now: u64)
    requires
        c.wf(),
    ensures
        c.start(key, now).wf(),
        c.stop(key).wf(),
        c.cleared().wf(),
        c.update_speed(key, now).0.wf(),
        c.move_left(key, now).wf(),
        c.move_right(key, now).wf(),
        c.move_up(key, now).wf(),
        c.move_down(key, now).wf(),
        c.to_top().wf(),
        c.to_bottom().wf(),
{
    lemma_moves_stay_on_screen(c, key, now);
    lemma_tracker_tables_agree(c, key, now);
}

/// Why a cursor could not be set up.
#[derive(Clone, Copy, Debug, PartialEq, Eq, Structural)]
pub enum SetupError {
    /// A screen side is zero or larger than `MAX_SCREEN_SIDE`.
    BadScreen,
    /// The acceleration base or the precision divisor is zero.
    BadConfig,
}

/// A cursor at the middle of a `width` by `height` screen with no key held.
pub open spec fn initial_cursor(width: nat, height: nat, cfg: NavigationConfig) -> CursorModel {
    CursorModel {
        x: center(width),
        y: center(height),
        width,
        height,
        press_start: Map::empty(),
        speeds: Map::empty(),
        shift_held: false,
        precision_held: false,
        selection_active: false,
        config: cfg,
    }
}

pub open spec fn screen_ok(width: u64, height: u64) -> bool {
    1 <= width <= MAX_SCREEN_SIDE && 1 <= height <= MAX_SCREEN_SIDE
}

/// Cursor position, screen bounds, held keys and modifier flags.
pub struct CursorState {
    x: u64,
    y: u64,
    screen_width: u64,
    screen_height: u64,
    pressed_keys: HashMap<u32, u64>,
    current_speeds: HashMap<u32, u64>,
    shift_pressed: bool,
    space_pressed: bool,
    selection_active: bool,
    config: NavigationConfig,
}

impl View for CursorState {
    type V = CursorModel;

    closed spec fn view(&self) -> CursorModel {
        CursorModel {
            x: self.x as nat,
            y: self.y as nat,
            width: self.screen_width as nat,
            height: self.screen_height as nat,
            press_start: self.pressed_keys@,
            speeds: self.current_speeds@,
            shift_held: self.shift_pressed,
            precision_held: self.space_pressed,
            selection_active: self.selection_active,
            config: self.config,
        }
    }
}

impl CursorState {
    pub open spec fn wf(&self) -> bool {
        self@.wf()
    }

    /// A cursor centred on the screen, or the reason it cannot be set up.
    pub fn new(width: u64, height: u64, config: NavigationConfig) -> (r: Result<
        CursorState,
        SetupError,
    >)
        ensures
            !screen_ok(width, height) ==> r == Err::<CursorState, SetupError>(SetupError::BadScreen),
            screen_ok(width, height) && !config.wf() ==> r == Err::<CursorState, SetupError>(
                SetupError::BadConfig,
            ),
            screen_ok(width, height) && config.wf() ==> r is Ok && r->Ok_0.wf() && r->Ok_0@
                == initial_cursor(width as nat, height as nat, config),
    {
        if width == 0 || width > MAX_SCREEN_SIDE || height == 0 || height > MAX_SCREEN_SIDE {
            return Err(SetupError::BadScreen);
        }
        if config.acceleration_base == 0 || config.precision_divisor == 0 {
            return Err(SetupError::BadConfig);
        }
        let last_x = (width - 1) * SUBPIXELS;
        let last_y = (height - 1) * SUBPIXELS;
        let half_x = width * SUBPIXELS / 2;
        let half_y = height * SUBPIXELS / 2;
        let state = CursorState {
            x: if half_x <= last_x {
                half_x
            } else {
                last_x
            },
            y: if half_y <= last_y {
                half_y
            } else {
                last_y
            },
            screen_width: width,
            screen_height: height,
            pressed_keys: HashMap::new(),
            current_speeds: HashMap::new(),
            shift_pressed: false,
            space_pressed: false,
            selection_active: false,
            config,
        };
        proof {
            assert(state@.press_start =~= Map::empty());
            assert(state@.speeds =~= Map::empty());
        }
        Ok(state)
    }

    /// Horizontal position in thousandths of a pixel.
    pub fn x(&self) -> (r: u64)
        ensures
            r == self@.x,
    {
        self.x
    }

    /// Vertical position in thousandths of a pixel.
    pub fn y(&self) -> (r: u64)
        ensures
            r == self@.y,
    {
        self.y
    }

    pub fn config(&self) -> (r: &NavigationConfig)
        ensures
            *r == self@.config,
    {
        &self.config
    }

    pub fn shift_pressed(&self) -> (r: bool)
        ensures
            r == self@.shift_held,
    {
        self.shift_pressed
    }

    pub fn precision_pressed(&self) -> (r: bool)
        ensures
            r == self@.precision_held,
    {
        self.space_pressed
    }

    pub fn selection_active(&self) -> (r: bool)
        ensures
            r == self@.selection_active,
    {
        self.selection_active
    }

    pub fn set_shift(&mut self, held: bool)
        ensures
            final(self)@ == (CursorModel { shift_held: held, ..old(self)@ }),
    {
        self.shift_pressed = held;
    }

    pub fn set_precision(&mut self, held: bool)
        ensures
            final(self)@ == (CursorModel { precision_held: held, ..old(self)@ }),
    {
        self.space_pressed = held;
    }

    /// Flips the selection flag and returns its new value.
    pub fn toggle_selection(&mut self) -> (r: bool)
        ensures
            r == !old(self)@.selection_active,
            final(self)@ == (CursorModel { selection_active: r, ..old(self)@ }),
    {
        self.selection_active = !self.selection_active;
        self.selection_active
    }

    /// Records `key` as pressed at `now` with the initial speed, replacing
    /// any earlier record of it.
    pub fn start_key_press(&mut self, key: Key, now: u64)
        requires
            old(self).wf(),
        ensures
            final(self).wf(),
            final(self)@ == old(self)@.start(key, now),
    {
        let code = key.code();
        let initial = saturating_initial(&self.config);
        self.pressed_keys.insert(code, now);
        self.current_speeds.insert(code, initial);
    }

    /// Forgets `key`; nothing changes if it was not held.
    pub fn stop_key_press(&mut self, key: Key)
        requires
            old(self).wf(),
        ensures
            final(self).wf(),
            final(self)@ == old(self)@.stop(key),
    {
        let code = key.code();
        self.pressed_keys.remove(&code);
        self.current_speeds.remove(&code);
    }

    /// Forgets every held key.
    pub fn clear_all(&mut self)
        requires
            old(self).wf(),
        ensures
            final(self).wf(),
            final(self)@ == old(self)@.cleared(),
    {
        self.pressed_keys.clear();
        self.current_speeds.clear();
        proof {
            assert(self@.press_start =~= Map::empty());
            assert(self@.speeds =~= Map::empty());
        }
    }

    /// Computes the current speed of a held `key` from its hold time and
    /// records it; a key that is not held reports the initial speed.
    pub fn update_speed(&mut self, key: Key, now: u64) -> (r: u64)
        requires
            old(self).wf(),
        ensures
            final(self).wf(),
            (final(self)@, r) == old(self)@.update_speed(key, now),
    {
        let code = key.code();
        match self.pressed_keys.get(&code) {
            Some(start) => {
                let start = *start;
                let held = if now >= start {
                    now - start
                } else {
                    0
                };
                let s = speed(held, &self.config, self.space_pressed);
                self.current_speeds.insert(code, s);
                proof {
                    assert(self@.speeds.dom() =~= self@.press_start.dom());
                }
                s
            },
            None => saturating_initial(&self.config),
        }
    }

    /// Moves left by the current speed of `key`, stopping at the edge.
    pub fn move_left(&mut self, key: Key, now: u64)
        requires
            old(self).wf(),
        ensures
            final(self).wf(),
            final(self)@ == old(self)@.move_left(key, now),
    {
        let s = self.update_speed(key, now);
        self.x = self.x.saturating_sub(s);
    }

    /// Moves right by the current speed of `key`, stopping at the edge.
    pub fn move_right(&mut self, key: Key, now: u64)
        requires
            old(self).wf(),
        ensures
            final(self).wf(),
            final(self)@ == old(self)@.move_right(key, now),
    {
        let s = self.update_speed(key, now);
        let last = (self.screen_width - 1) * SUBPIXELS;
        let target = self.x.saturating_add(s);
        self.x = if target < last {
            target
        } else {
            last
        };
    }

    /// Moves up by the current speed of `key`, stopping at the edge.
    pub fn move_up(&mut self, key: Key, now: u64)
        requires
            old(self).wf(),
        ensures
            final(self).wf(),
            final(self)@ == old(self)@.move_up(key, now),
    {
        let s = self.update_speed(key, now);
        self.y = self.y.saturating_sub(s);
    }

    /// Moves down by the current speed of `key`, stopping at the edge.
    pub fn move_down(&mut self, key: Key, now: u64)
        requires
            old(self).wf(),
        ensures
            final(self).wf(),
            final(self)@ == old(self)@.move_down(key, now),
    {
        let s = self.update_speed(key, now);
        let last = (self.screen_height - 1) * SUBPIXELS;
        let target = self.y.saturating_add(s);
        self.y = if target < last {
            target
        } else {
            last
        };
    }

    /// Puts the cursor on the top row, keeping its column.
    pub fn goto_top(&mut self)
        requires
            old(self).wf(),
        ensures
            final(self).wf(),
            final(self)@ == old(self)@.to_top(),
    {
        self.y = 0;
    }

    /// Puts the cursor on the bottom row, keeping its column.
    pub fn goto_bottom(&mut self)
        requires
            old(self).wf(),
        ensures
            final(self).wf(),
            final(self)@ == old(self)@.to_bottom(),
    {
        self.y = (self.screen_height - 1) * SUBPIXELS;
    }

    pub fn is_key_pressed(&self, key: Key) -> (r: bool)
        ensures
            r == self@.is_held(key),
    {
        let code = key.code();
        self.pressed_keys.contains_key(&code)
    }
}

/// The initial speed of `config` in thousandths of a pixel, saturated.
fn saturating_initial(config: &NavigationConfig) -> (r: u64)
    ensures
        r == initial_speed(*config),
{
    match config.initial_move_step.checked_mul(SUBPIXELS) {
        Some(v) => v,
        None => SPEED_LIMIT,
    }
}

} // verus!
