use vstd::prelude::*;

use crate::actions::{Action, Direction, SyntheticEvent};
use crate::config::{Bindings, NavigationConfig};
use crate::cursor::{
    CursorModel, CursorState, SetupError, initial_cursor, lemma_cursor_ops_keep_wf, screen_ok,
};
use crate::keys::Key;

verus! {

/// Whether held keys drive the pointer or reach other applications.
#[derive(Clone, Copy, Debug, PartialEq, Eq, Structural)]
pub enum Mode {
    Navigation,
    Typing,
}

/// A raw event delivered by the operating system.
#[derive(Clone, Copy, Debug, PartialEq, Eq, Structural)]
pub enum InputEvent {
    KeyPress(Key),
    KeyRelease(Key),
    /// Any pointer or other event, which is always let through.
    Other,
}

/// The hook's answer to one event: whether other applications must not see
/// it, and the one-shot action to carry out once the state lock is released.
#[derive(Clone, Copy, Debug, PartialEq, Eq)]
pub struct Reaction {
    pub suppress: bool,
    pub action: Option<Action>,
}

/// The abstract navigator: the cursor and the mode.
pub ghost struct NavModel {
    pub cursor: CursorModel,
    pub mode: Mode,
}

pub open spec fn forward() -> Reaction {
    Reaction { suppress: false, action: None }
}

pub open spec fn swallow(action: Option<Action>) -> Reaction {
    Reaction { suppress: true, action }
}

/// The direction that `k` is bound to, the first binding winning.
pub open spec fn direction_of(b: Bindings, k: Key) -> Option<Direction> {
    if k == b.left {
        Some(Direction::Left)
    } else if k == b.down {
        Some(Direction::Down)
    } else if k == b.up {
        Some(Direction::Up)
    } else if k == b.right {
        Some(Direction::Right)
    } else {
        None
    }
}

/// The modifier flags after `k` goes down.
pub open spec fn note_press(c: CursorModel, k: Key) -> CursorModel {
    CursorModel {
        shift_held: if k.spec_is_shift() {
            true
        } else {
            c.shift_held
        },
        precision_held: if k == Key::Space {
            true
        } else {
            c.precision_held
        },
        ..c
    }
}

/// The modifier flags after `k` comes up.
pub open spec fn note_release(c: CursorModel, k: Key) -> CursorModel {
    CursorModel {
        shift_held: if k.spec_is_shift() {
            false
        } else {
            c.shift_held
        },
        precision_held: if k == Key::Space {
            false
        } else {
            c.precision_held
        },
        ..c
    }
}

/// The pointer move to the cursor's position.
pub open spec fn move_to(c: CursorModel) -> Action {
    Action::MoveTo { x: c.x as u64, y: c.y as u64 }
}

/// A key going down, the first matching rule deciding.
pub open spec fn on_press(s: NavModel, k: Key, now: u64) -> (NavModel, Reaction) {
    let c = note_press(s.cursor, k);
    let b = c.config.keys;
    let nav = s.mode == Mode::Navigation;
    let keep = NavModel { cursor: c, mode: s.mode };
    if k == b.toggle_mode {
        if nav {
            (
                NavModel {
                    cursor: CursorModel { precision_held: false, ..c.cleared() },
                    mode: Mode::Typing,
                },
                swallow(None),
            )
        } else {
            (NavModel { cursor: c, mode: Mode::Navigation }, swallow(None))
        }
    } else if nav && direction_of(b, k) is Some {
        if c.shift_held {
            (keep, swallow(Some(Action::Scroll(direction_of(b, k)->Some_0))))
        } else {
            (NavModel { cursor: c.start(k, now), mode: s.mode }, swallow(None))
        }
    } else if nav && k == b.click {
        (keep, swallow(Some(Action::Click)))
    } else if nav && k == b.right_click {
        (keep, swallow(Some(Action::RightClick)))
    } else if nav && k == b.select_toggle {
        let on = !c.selection_active;
        (
            NavModel { cursor: CursorModel { selection_active: on, ..c }, mode: s.mode },
            swallow(
                Some(
                    if on {
                        Action::StartSelection
                    } else {
                        Action::EndSelection
                    },
                ),
            ),
        )
    } else if nav && k == b.goto_top && !c.shift_held {
        (NavModel { cursor: c.to_top(), mode: s.mode }, swallow(Some(move_to(c.to_top()))))
    } else if nav && k == b.goto_bottom && c.shift_held {
        (NavModel { cursor: c.to_bottom(), mode: s.mode }, swallow(Some(move_to(c.to_bottom()))))
    } else if nav && k == b.yank {
        (keep, swallow(Some(Action::Yank)))
    } else if nav && k == b.paste {
        (keep, swallow(Some(Action::Paste)))
    } else if nav && k == Key::Space {
        (keep, swallow(None))
    } else {
        (keep, forward())
    }
}

/// A key coming up.
pub open spec fn on_release(s: NavModel, k: Key) -> (NavModel, Reaction) {
    let c = note_release(s.cursor, k);
    let nav = s.mode == Mode::Navigation;
    if nav && direction_of(c.config.keys, k) is Some {
        (NavModel { cursor: c.stop(k), mode: s.mode }, swallow(None))
    } else if nav && k == Key::Space {
        (NavModel { cursor: c, mode: s.mode }, swallow(None))
    } else {
        (NavModel { cursor: c, mode: s.mode }, forward())
    }
}

/// The state after the hook has seen `ev` at `now`, and its reaction.
pub open spec fn hook_step(s: NavModel, ev: InputEvent, now: u64) -> (NavModel, Reaction) {
    match ev {
        InputEvent::KeyPress(k) => on_press(s, k, now),
        InputEvent::KeyRelease(k) => on_release(s, k),
        InputEvent::Other => (s, forward()),
    }
}

/// One axis step of the mover: moves along `d` if `key` is held, and says
/// whether it did.
#[verifier::opaque]
pub open spec fn axis_step(c: CursorModel, key: Key, d: Direction, now: u64) -> (CursorModel, bool) {
    if c.is_held(key) {
        (
            match d {
                Direction::Left => c.move_left(key, now),
                Direction::Down => c.move_down(key, now),
                Direction::Up => c.move_up(key, now),
                Direction::Right => c.move_right(key, now),
            },
            true,
        )
    } else {
        (c, false)
    }
}

/// One period of the mover: in navigation mode each held direction key
/// moves the cursor along its axis, and any movement ends in a single
/// pointer move to the final position.
pub open spec fn tick(s: NavModel, now: u64) -> (NavModel, Option<SyntheticEvent>) {
    if s.mode == Mode::Typing {
        (s, None)
    } else {
        let b = s.cursor.config.keys;
        let (c1, m1) = axis_step(s.cursor, b.left, Direction::Left, now);
        let (c2, m2) = axis_step(c1, b.down, Direction::Down, now);
        let (c3, m3) = axis_step(c2, b.up, Direction::Up, now);
        let (c4, m4) = axis_step(c3, b.right, Direction::Right, now);
        if m1 || m2 || m3 || m4 {
            (
                NavModel { cursor: c4, mode: s.mode },
                Some(SyntheticEvent::MouseMove { x: c4.x as u64, y: c4.y as u64 }),
            )
        } else {
            (s, None)
        }
    }
}

proof fn lemma_flags_keep_wf(c: CursorModel, k: Key)
    requires
        c.wf(),
    ensures
        note_press(c, k).wf(),
        note_release(c, k).wf(),
        note_press(c, k).config == c.config,
        note_release(c, k).config == c.config,
{
}

/// Every event that the hook handles leaves the cursor on the screen and the
/// two held-key tables in step.
pub proof fn lemma_hook_keeps_wf(s: NavModel, ev: InputEvent, now: u64)
    requires
        s.cursor.wf(),
    ensures
        hook_step(s, ev, now).0.cursor.wf(),
{
    match ev {
        InputEvent::KeyPress(k) => {
            lemma_flags_keep_wf(s.cursor, k);
            lemma_cursor_ops_keep_wf(note_press(s.cursor, k), k, now);
        },
        InputEvent::KeyRelease(k) => {
            lemma_flags_keep_wf(s.cursor, k);
            lemma_cursor_ops_keep_wf(note_release(s.cursor, k), k, now);
        },
        InputEvent::Other => {},
    }
}

proof fn lemma_axis_step_keeps_wf(c: CursorModel, key: Key, d: Direction, now: u64)
    requires
        c.wf(),
    ensures
        axis_step(c, key, d, now).0.wf(),
        axis_step(c, key, d, now).0.config == c.config,
{
    reveal(axis_step);
    lemma_cursor_ops_keep_wf(c, key, now);
}

/// Every period of the mover leaves the cursor on the screen, however fast
/// the held keys ask it to go, and the two held-key tables in step.
pub proof fn lemma_tick_keeps_wf(s: NavModel, now: u64)
    requires
        s.cursor.wf(),
    ensures
        tick(s, now).0.cursor.wf(),
{
    if s.mode == Mode::Navigation {
        let b = s.cursor.config.keys;
        let c1 = axis_step(s.cursor, b.left, Direction::Left, now).0;
        let c2 = axis_step(c1, b.down, Direction::Down, now).0;
        let c3 = axis_step(c2, b.up, Direction::Up, now).0;
        lemma_axis_step_keeps_wf(s.cursor, b.left, Direction::Left, now);
        lemma_axis_step_keeps_wf(c1, b.down, Direction::Down, now);
        lemma_axis_step_keeps_wf(c2, b.up, Direction::Up, now);
        lemma_axis_step_keeps_wf(c3, b.right, Direction::Right, now);
    }
}

/// Pressing the mode key in navigation mode enters typing mode with no key
/// held, so the next period of the mover moves nothing, whether or not the
/// releases of the keys that were held ever arrive.
pub proof fn lemma_typing_entry_stops_movement(s: NavModel, now: u64, later: u64)
    requires
        s.cursor.wf(),
        s.mode == Mode::Navigation,
    ensures
        ({
            let (t, r) = hook_step(s, InputEvent::KeyPress(s.cursor.config.keys.toggle_mode), now);
            &&& t.mode == Mode::Typing
            &&& t.cursor.press_start == Map::<u32, u64>::empty()
            &&& t.cursor.speeds == Map::<u32, u64>::empty()
            &&& forall|k: Key| !t.cursor.is_held(k)
            &&& r.suppress
            &&& tick(t, later) == (t, None::<SyntheticEvent>)
        }),
{
}

/// In typing mode no event but the mode key's press changes the mode or
/// makes a key held, so the mover keeps still until navigation resumes.
pub proof fn lemma_typing_holds_no_keys(s: NavModel, ev: InputEvent, now: u64, later: u64)
    requires
        s.mode == Mode::Typing,
        s.cursor.press_start == Map::<u32, u64>::empty(),
        ev != InputEvent::KeyPress(s.cursor.config.keys.toggle_mode),
    ensures
        hook_step(s, ev, now).0.mode == Mode::Typing,
        hook_step(s, ev, now).0.cursor.press_start == Map::<u32, u64>::empty(),
        tick(hook_step(s, ev, now).0, later).1 is None,
{
    match ev {
        InputEvent::KeyRelease(k) => {
            assert(hook_step(s, ev, now).0.cursor.press_start == s.cursor.press_start);
        },
        _ => {},
    }
}

/// The cursor and the mode behind one lock: the input hook and the mover
/// each take it for one short call.
pub struct Navigator {
    cursor: CursorState,
    mode: Mode,
}

impl View for Navigator {
    type V = NavModel;

    closed spec fn view(&self) -> NavModel {
        NavModel { cursor: self.cursor@, mode: self.mode }
    }
}

/// The direction that `k` is bound to, the first binding winning.
pub fn binding_direction(b: &Bindings, k: Key) -> (r: Option<Direction>)
    ensures
        r == direction_of(*b, k),
{
    if k == b.left {
        Some(Direction::Left)
    } else if k == b.down {
        Some(Direction::Down)
    } else if k == b.up {
        Some(Direction::Up)
    } else if k == b.right {
        Some(Direction::Right)
    } else {
        None
    }
}

impl Navigator {
    pub open spec fn wf(&self) -> bool {
        self@.cursor.wf()
    }

    /// A navigator in navigation mode with the cursor at the middle of the
    /// screen, or the reason it cannot be set up.
    pub fn new(width: u64, height: u64, config: NavigationConfig) -> (r: Result<
        Navigator,
        SetupError,
    >)
        ensures
            !screen_ok(width, height) ==> r == Err::<Navigator, SetupError>(SetupError::BadScreen),
            screen_ok(width, height) && !config.wf() ==> r == Err::<Navigator, SetupError>(
                SetupError::BadConfig,
            ),
            screen_ok(width, height) && config.wf() ==> r is Ok && r->Ok_0.wf() && r->Ok_0@ == (
            NavModel {
                cursor: initial_cursor(width as nat, height as nat, config),
                mode: Mode::Navigation,
            }),
    {
        match CursorState::new(width, height, config) {
            Ok(cursor) => Ok(Navigator { cursor, mode: Mode::Navigation }),
            Err(e) => Err(e),
        }
    }

    pub fn mode(&self) -> (r: Mode)
        ensures
            r == self@.mode,
    {
        self.mode
    }

    pub fn cursor(&self) -> (r: &CursorState)
        ensures
            r@ == self@.cursor,
            self.wf() ==> r.wf(),
    {
        &self.cursor
    }

    /// The pointer move to the current position.
    pub fn current_position(&self) -> (r: Action)
        ensures
            r == move_to(self@.cursor),
    {
        Action::MoveTo { x: self.cursor.x(), y: self.cursor.y() }
    }

    /// Decides what becomes of a key going down and updates the state.
    fn press(&mut self, k: Key, now: u64) -> (r: Reaction)
        requires
            old(self).wf(),
        ensures
            final(self).wf(),
            (final(self)@, r) == on_press(old(self)@, k, now),
    {
        if k.is_shift() {
            self.cursor.set_shift(true);
        }
        if k == Key::Space {
            self.cursor.set_precision(true);
        }
        let b = self.cursor.config().keys;
        let nav = self.mode == Mode::Navigation;
        if k == b.toggle_mode {
            if nav {
                self.cursor.clear_all();
                self.cursor.set_precision(false);
                self.mode = Mode::Typing;
            } else {
                self.mode = Mode::Navigation;
            }
            return Reaction { suppress: true, action: None };
        }
        let dir = binding_direction(&b, k);
        if nav && dir.is_some() {
            if self.cursor.shift_pressed() {
                return Reaction { suppress: true, action: Some(Action::Scroll(dir.unwrap())) };
            } else {
                self.cursor.start_key_press(k, now);
                return Reaction { suppress: true, action: None };
            }
        }
        if nav && k == b.click {
            Reaction { suppress: true, action: Some(Action::Click) }
        } else if nav && k == b.right_click {
            Reaction { suppress: true, action: Some(Action::RightClick) }
        } else if nav && k == b.select_toggle {
            let on = self.cursor.toggle_selection();
            let a = if on {
                Action::StartSelection
            } else {
                Action::EndSelection
            };
            Reaction { suppress: true, action: Some(a) }
        } else if nav && k == b.goto_top && !self.cursor.shift_pressed() {
            self.cursor.goto_top();
            Reaction { suppress: true, action: Some(self.current_position()) }
        } else if nav && k == b.goto_bottom && self.cursor.shift_pressed() {
            self.cursor.goto_bottom();
            Reaction { suppress: true, action: Some(self.current_position()) }
        } else if nav && k == b.yank {
            Reaction { suppress: true, action: Some(Action::Yank) }
        } else if nav && k == b.paste {
            Reaction { suppress: true, action: Some(Action::Paste) }
        } else if nav && k == Key::Space {
            Reaction { suppress: true, action: None }
        } else {
            Reaction { suppress: false, action: None }
        }
    }

    /// Decides what becomes of a key coming up and updates the state.
    fn release(&mut self, k: Key) -> (r: Reaction)
        requires
            old(self).wf(),
        ensures
            final(self).wf(),
            (final(self)@, r) == on_release(old(self)@, k),
    {
        if k.is_shift() {
            self.cursor.set_shift(false);
        }
        if k == Key::Space {
            self.cursor.set_precision(false);
        }
        let nav = self.mode == Mode::Navigation;
        let b = self.cursor.config().keys;
        if nav && binding_direction(&b, k).is_some() {
            self.cursor.stop_key_press(k);
            Reaction { suppress: true, action: None }
        } else if nav && k == Key::Space {
            Reaction { suppress: true, action: None }
        } else {
            Reaction { suppress: false, action: None }
        }
    }

    /// The input hook: updates the mode, the held keys and the flags for one
    /// event, and says whether to suppress it and which action to carry out.
    pub fn handle_event(&mut self, event: InputEvent, now: u64) -> (r: Reaction)
        requires
            old(self).wf(),
        ensures
            final(self).wf(),
            (final(self)@, r) == hook_step(old(self)@, event, now),
    {
        match event {
            InputEvent::KeyPress(k) => self.press(k, now),
            InputEvent::KeyRelease(k) => self.release(k),
            InputEvent::Other => Reaction { suppress: false, action: None },
        }
    }

    /// One axis step of the mover.
    fn step_axis(&mut self, key: Key, d: Direction, now: u64) -> (moved: bool)
        requires
            old(self).wf(),
        ensures
            final(self).wf(),
            final(self)@.mode == old(self)@.mode,
            (final(self)@.cursor, moved) == axis_step(old(self)@.cursor, key, d, now),
            !moved ==> final(self)@ == old(self)@,
    {
        proof {
            reveal(axis_step);
        }
        if !self.cursor.is_key_pressed(key) {
            return false;
        }
        match d {
            Direction::Left => self.cursor.move_left(key, now),
            Direction::Down => self.cursor.move_down(key, now),
            Direction::Up => self.cursor.move_up(key, now),
            Direction::Right => self.cursor.move_right(key, now),
        }
        true
    }

    /// One period of the mover: advances the cursor for every held direction
    /// key and returns the single pointer move to inject, if it moved.
    pub fn tick(&mut self, now: u64) -> (r: Option<SyntheticEvent>)
        requires
            old(self).wf(),
        ensures
            final(self).wf(),
            (final(self)@, r) == tick(old(self)@, now),
    {
        if self.mode == Mode::Typing {
            return None;
        }
        let b = self.cursor.config().keys;
        let m1 = self.step_axis(b.left, Direction::Left, now);
        let m2 = self.step_axis(b.down, Direction::Down, now);
        let m3 = self.step_axis(b.up, Direction::Up, now);
        let m4 = self.step_axis(b.right, Direction::Right, now);
        if m1 || m2 || m3 || m4 {
            Some(SyntheticEvent::MouseMove { x: self.cursor.x(), y: self.cursor.y() })
        } else {
            None
        }
    }
}

} // verus!
