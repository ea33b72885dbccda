//! Input events as the library sees them. The embedding binary decodes the
//! terminal's own key symbols into these plain values before dispatching.

use vstd::prelude::*;

verus! {

/// A decoded key press.
#[derive(PartialEq, Eq, Structural, Clone, Copy, Debug)]
pub enum Key {
    /// A printable character.
    Char(char),
    Backspace,
    Delete,
    Left,
    Right,
    Up,
    Down,
    Enter,
    Esc,
    Tab,
    BackTab,
    /// A function key, by number.
    Function(u8),
    /// Any key the library has no meaning for.
    Other,
}

/// One input event delivered by the host event loop.
#[derive(PartialEq, Eq, Structural, Clone, Copy, Debug)]
pub enum InputEvent {
    Key(Key),
    /// New terminal size as (columns, rows).
    Resize(u16, u16),
    /// Any event the library has no meaning for.
    Other,
}

} // verus!
