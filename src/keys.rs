use vstd::prelude::*;

verus! {

/// The keys that the navigator can be bound to or reacts to.
/// Every other key of the keyboard is `Other`.
#[derive(Clone, Copy, Debug, PartialEq, Eq, Structural)]
pub enum Key {
    KeyA,
    KeyC,
    KeyD,
    KeyE,
    KeyF,
    KeyG,
    KeyH,
    KeyI,
    KeyJ,
    KeyK,
    KeyL,
    KeyP,
    KeyR,
    KeyS,
    KeyT,
    KeyV,
    KeyW,
    KeyY,
    Return,
    Escape,
    Space,
    ShiftLeft,
    ShiftRight,
    MetaLeft,
    Other,
}

/// A distinct number for each key, used to index the held-key tables.
pub open spec fn key_code(k: Key) -> u32 {
    match k {
        Key::KeyA => 0,
        Key::KeyC => 1,
        Key::KeyD => 2,
        Key::KeyE => 3,
        Key::KeyF => 4,
        Key::KeyG => 5,
        Key::KeyH => 6,
        Key::KeyI => 7,
        Key::KeyJ => 8,
        Key::KeyK => 9,
        Key::KeyL => 10,
        Key::KeyP => 11,
        Key::KeyR => 12,
        Key::KeyS => 13,
        Key::KeyT => 14,
        Key::KeyV => 15,
        Key::KeyW => 16,
        Key::KeyY => 17,
        Key::Return => 18,
        Key::Escape => 19,
        Key::Space => 20,
        Key::ShiftLeft => 21,
        Key::ShiftRight => 22,
        Key::MetaLeft => 23,
        Key::Other => 24,
    }
}

impl Key {
    pub fn code(&self) -> (r: u32)
        ensures
            r == key_code(*self),
    {
        match self {
            Key::KeyA => 0,
            Key::KeyC => 1,
            Key::KeyD => 2,
            Key::KeyE => 3,
            Key::KeyF => 4,
            Key::KeyG => 5,
            Key::KeyH => 6,
            Key::KeyI => 7,
            Key::KeyJ => 8,
            Key::KeyK => 9,
            Key::KeyL => 10,
            Key::KeyP => 11,
            Key::KeyR => 12,
            Key::KeyS => 13,
            Key::KeyT => 14,
            Key::KeyV => 15,
            Key::KeyW => 16,
            Key::KeyY => 17,
            Key::Return => 18,
            Key::Escape => 19,
            Key::Space => 20,
            Key::ShiftLeft => 21,
            Key::ShiftRight => 22,
            Key::MetaLeft => 23,
            Key::Other => 24,
        }
    }

    pub open spec fn spec_is_shift(self) -> bool {
        self == Key::ShiftLeft || self == Key::ShiftRight
    }

    /// Either shift key.
    pub fn is_shift(&self) -> (r: bool)
        ensures
            r == self.spec_is_shift(),
    {
        *self == Key::ShiftLeft || *self == Key::ShiftRight
    }
}

/// The key that a lower-case binding name stands for, if any.
pub open spec fn key_named(name: Seq<char>) -> Option<Key> {
    if name == "h"@ {
        Some(Key::KeyH)
    } else if name == "j"@ {
        Some(Key::KeyJ)
    } else if name == "k"@ {
        Some(Key::KeyK)
    } else if name == "l"@ {
        Some(Key::KeyL)
    } else if name == "i"@ {
        Some(Key::KeyI)
    } else if name == "return"@ || name == "enter"@ {
        Some(Key::Return)
    } else if name == "escape"@ || name == "esc"@ {
        Some(Key::Escape)
    } else if name == "a"@ {
        Some(Key::KeyA)
    } else if name == "s"@ {
        Some(Key::KeyS)
    } else if name == "d"@ {
        Some(Key::KeyD)
    } else if name == "f"@ {
        Some(Key::KeyF)
    } else if name == "w"@ {
        Some(Key::KeyW)
    } else if name == "e"@ {
        Some(Key::KeyE)
    } else if name == "r"@ {
        Some(Key::KeyR)
    } else if name == "t"@ {
        Some(Key::KeyT)
    } else if name == "g"@ {
        Some(Key::KeyG)
    } else if name == "v"@ {
        Some(Key::KeyV)
    } else if name == "y"@ {
        Some(Key::KeyY)
    } else if name == "p"@ {
        Some(Key::KeyP)
    } else if name == "shift_g"@ {
        // the shift half of the binding is checked by the hook
        Some(Key::KeyG)
    } else if name == "space"@ {
        Some(Key::Space)
    } else {
        None
    }
}

/// What `str::to_lowercase` makes of a text.
pub uninterp spec fn lower_of(s: Seq<char>) -> Seq<char>;

/// Relies on `str::to_lowercase`: the lower-case form of the text, which
/// depends on its characters alone.
#[verifier::external_body]
fn lowercase(s: &str) -> (r: String)
    ensures
        r@ == lower_of(s@),
{
    s.to_lowercase()
}

/// Whether two texts hold the same characters.
fn same_text(a: &str, b: &str) -> (r: bool)
    ensures
        r == (a@ == b@),
{
    let n = a.unicode_len();
    if n != b.unicode_len() {
        return false;
    }
    let mut i: usize = 0;
    while i < n
        invariant
            n == a@.len(),
            n == b@.len(),
            i <= n,
            forall|j: int| 0 <= j < i ==> a@[j] == b@[j],
        decreases n - i,
    {
        if a.get_char(i) != b.get_char(i) {
            return false;
        }
        i = i + 1;
    }
    proof {
        assert(a@ =~= b@);
    }
    true
}

/// The key that a lower-case binding name stands for.
pub fn key_from_name(name: &str) -> (r: Option<Key>)
    ensures
        r == key_named(name@),
{
    if same_text(name, "h") {
        Some(Key::KeyH)
    } else if same_text(name, "j") {
        Some(Key::KeyJ)
    } else if same_text(name, "k") {
        Some(Key::KeyK)
    } else if same_text(name, "l") {
        Some(Key::KeyL)
    } else if same_text(name, "i") {
        Some(Key::KeyI)
    } else if same_text(name, "return") || same_text(name, "enter") {
        Some(Key::Return)
    } else if same_text(name, "escape") || same_text(name, "esc") {
        Some(Key::Escape)
    } else if same_text(name, "a") {
        Some(Key::KeyA)
    } else if same_text(name, "s") {
        Some(Key::KeyS)
    } else if same_text(name, "d") {
        Some(Key::KeyD)
    } else if same_text(name, "f") {
        Some(Key::KeyF)
    } else if same_text(name, "w") {
        Some(Key::KeyW)
    } else if same_text(name, "e") {
        Some(Key::KeyE)
    } else if same_text(name, "r") {
        Some(Key::KeyR)
    } else if same_text(name, "t") {
        Some(Key::KeyT)
    } else if same_text(name, "g") {
        Some(Key::KeyG)
    } else if same_text(name, "v") {
        Some(Key::KeyV)
    } else if same_text(name, "y") {
        Some(Key::KeyY)
    } else if same_text(name, "p") {
        Some(Key::KeyP)
    } else if same_text(name, "shift_g") {
        Some(Key::KeyG)
    } else if same_text(name, "space") {
        Some(Key::Space)
    } else {
        None
    }
}

/// The key that a binding name stands for, in any letter case.
pub fn string_to_key(name: &str) -> (r: Option<Key>)
    ensures
        r == key_named(lower_of(name@)),
{
    let lower = lowercase(name);
    key_from_name(lower.as_str())
}

} // verus!
