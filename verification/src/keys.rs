//! The keys the game reacts to, as the front end reports them.

use vstd::prelude::*;

verus! {

/// A key press.
#[derive(Debug, Clone, Copy, PartialEq, Eq, Structural)]
pub enum Key {
    Up,
    Down,
    Left,
    Right,
    Enter,
    Esc,
    Backspace,
    /// A printable character.
    Char(char),
    /// Any other key.
    Other,
}

/// The key is one of the two given characters.
pub open spec fn is_char(key: Key, a: char, b: char) -> bool {
    key == Key::Char(a) || key == Key::Char(b)
}

/// Whether a key is the given character in either of two spellings.
pub fn key_is(key: Key, a: char, b: char) -> (r: bool)
    ensures
        r == is_char(key, a, b),
{
    match key {
        Key::Char(c) => c == a || c == b,
        _ => false,
    }
}

} // verus!
