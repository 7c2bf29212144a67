//! Keystrokes and their routing targets, as plain values.

use vstd::prelude::*;

verus! {

/// One keystroke. Anything that is no key of this list (a mouse event, an
/// unsupported escape sequence) is `Other`.
#[derive(Clone, Copy, Debug, PartialEq, Eq)]
pub enum Key {
    Char(char),
    Ctrl(char),
    Alt(char),
    Left,
    Right,
    Up,
    Down,
    Home,
    End,
    PageUp,
    PageDown,
    Backspace,
    Delete,
    Insert,
    Esc,
    F(u8),
    Other,
}

/// A keystroke together with the region it is meant for.
#[derive(Clone, Copy, Debug, PartialEq, Eq)]
pub enum InputEvent {
    ConsoleEvent(Key),
    PseudoTerminalEvent(Key),
    SourcePagerEvent(Key),
    Quit,
}

impl Key {
    /// The key that submits the prompt line.
    pub open spec fn is_submit(self) -> bool {
        self == Key::Char('\n')
    }

    /// The key that interrupts the session or clears the prompt.
    pub open spec fn is_interrupt(self) -> bool {
        self == Key::Ctrl('c')
    }
}

} // verus!
