use vstd::prelude::*;

use crate::keys::Key;

verus! {

/// Number of wheel notches that one scroll request sends.
pub const SCROLL_NOTCHES: u64 = 3;

/// Wheel distance of one notch.
pub const NOTCH: i64 = 120;

#[derive(Clone, Copy, Debug, PartialEq, Eq, Structural)]
pub enum Button {
    Left,
    Right,
}

#[derive(Clone, Copy, Debug, PartialEq, Eq, Structural)]
pub enum Direction {
    Left,
    Down,
    Up,
    Right,
}

/// An input event to inject into the operating system. Pointer
/// coordinates are in thousandths of a pixel.
#[derive(Clone, Copy, Debug, PartialEq, Eq, Structural)]
pub enum SyntheticEvent {
    MouseMove { x: u64, y: u64 },
    ButtonPress(Button),
    ButtonRelease(Button),
    Wheel { delta_x: i64, delta_y: i64 },
    KeyPress(Key),
    KeyRelease(Key),
}

/// A one-shot behaviour requested by a key press.
#[derive(Clone, Copy, Debug, PartialEq, Eq, Structural)]
pub enum Action {
    Click,
    RightClick,
    /// Presses the left button and keeps it down, starting a drag.
    StartSelection,
    /// Releases the left button held by `StartSelection`.
    EndSelection,
    /// Puts the pointer at the given position.
    MoveTo { x: u64, y: u64 },
    Scroll(Direction),
    Yank,
    Paste,
}

/// The wheel event of one notch in direction `d`.
pub open spec fn notch_event(d: Direction) -> SyntheticEvent {
    match d {
        Direction::Up => SyntheticEvent::Wheel { delta_x: 0, delta_y: NOTCH },
        Direction::Down => SyntheticEvent::Wheel { delta_x: 0, delta_y: (-NOTCH) as i64 },
        Direction::Left => SyntheticEvent::Wheel { delta_x: (-NOTCH) as i64, delta_y: 0 },
        Direction::Right => SyntheticEvent::Wheel { delta_x: NOTCH, delta_y: 0 },
    }
}

/// A press and a release of `b`.
pub open spec fn click_events(b: Button) -> Seq<SyntheticEvent> {
    seq![SyntheticEvent::ButtonPress(b), SyntheticEvent::ButtonRelease(b)]
}

/// The platform accelerator held around a press and release of `letter`.
pub open spec fn chord_events(letter: Key) -> Seq<SyntheticEvent> {
    seq![
        SyntheticEvent::KeyPress(Key::MetaLeft),
        SyntheticEvent::KeyPress(letter),
        SyntheticEvent::KeyRelease(letter),
        SyntheticEvent::KeyRelease(Key::MetaLeft),
    ]
}

/// The events that carry out `a`, in the order they are injected.
pub open spec fn action_events(a: Action) -> Seq<SyntheticEvent> {
    match a {
        Action::Click => click_events(Button::Left),
        Action::RightClick => click_events(Button::Right),
        Action::StartSelection => seq![SyntheticEvent::ButtonPress(Button::Left)],
        Action::EndSelection => seq![SyntheticEvent::ButtonRelease(Button::Left)],
        Action::MoveTo { x, y } => seq![SyntheticEvent::MouseMove { x, y }],
        Action::Scroll(d) => Seq::new(SCROLL_NOTCHES as nat, |i: int| notch_event(d)),
        Action::Yank => chord_events(Key::KeyC),
        Action::Paste => chord_events(Key::KeyV),
    }
}

fn click(b: Button) -> (r: Vec<SyntheticEvent>)
    ensures
        r@ == click_events(b),
{
    let r = vec![SyntheticEvent::ButtonPress(b), SyntheticEvent::ButtonRelease(b)];
    proof {
        assert(r@ =~= click_events(b));
    }
    r
}

fn chord(letter: Key) -> (r: Vec<SyntheticEvent>)
    ensures
        r@ == chord_events(letter),
{
    let r = vec![
        SyntheticEvent::KeyPress(Key::MetaLeft),
        SyntheticEvent::KeyPress(letter),
        SyntheticEvent::KeyRelease(letter),
        SyntheticEvent::KeyRelease(Key::MetaLeft),
    ];
    proof {
        assert(r@ =~= chord_events(letter));
    }
    r
}

/// The wheel event of one notch in direction `d`.
pub fn notch(d: Direction) -> (r: SyntheticEvent)
    ensures
        r == notch_event(d),
{
    match d {
        Direction::Up => SyntheticEvent::Wheel { delta_x: 0, delta_y: NOTCH },
        Direction::Down => SyntheticEvent::Wheel { delta_x: 0, delta_y: -NOTCH },
        Direction::Left => SyntheticEvent::Wheel { delta_x: -NOTCH, delta_y: 0 },
        Direction::Right => SyntheticEvent::Wheel { delta_x: NOTCH, delta_y: 0 },
    }
}

/// A burst of `SCROLL_NOTCHES` wheel notches in direction `d`.
pub fn scroll(d: Direction) -> (r: Vec<SyntheticEvent>)
    ensures
        r@ == action_events(Action::Scroll(d)),
{
    let mut r: Vec<SyntheticEvent> = Vec::new();
    let mut i: u64 = 0;
    while i < SCROLL_NOTCHES
        invariant
            i <= SCROLL_NOTCHES,
            r@ == Seq::new(i as nat, |j: int| notch_event(d)),
        decreases SCROLL_NOTCHES - i,
    {
        r.push(notch(d));
        i = i + 1;
        proof {
            assert(r@ =~= Seq::new(i as nat, |j: int| notch_event(d)));
        }
    }
    r
}

impl Action {
    /// The events that carry out this action, in the order they are
    /// injected.
    pub fn events(&self) -> (r: Vec<SyntheticEvent>)
        ensures
            r@ == action_events(*self),
    {
        match *self {
            Action::Click => click(Button::Left),
            Action::RightClick => click(Button::Right),
            Action::StartSelection => {
                let r = vec![SyntheticEvent::ButtonPress(Button::Left)];
                proof {
                    assert(r@ =~= action_events(*self));
                }
                r
            },
            Action::EndSelection => {
                let r = vec![SyntheticEvent::ButtonRelease(Button::Left)];
                proof {
                    assert(r@ =~= action_events(*self));
                }
                r
            },
            Action::MoveTo { x, y } => {
                let r = vec![SyntheticEvent::MouseMove { x, y }];
                proof {
                    assert(r@ =~= action_events(*self));
                }
                r
            },
            Action::Scroll(d) => scroll(d),
            Action::Yank => chord(Key::KeyC),
            Action::Paste => chord(Key::KeyV),
        }
    }
}

} // verus!
