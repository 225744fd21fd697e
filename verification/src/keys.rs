//! The inbound key-event model: the key codes the modal distinguishes and the
//! event kinds a terminal reports. The host converts its backend's events
//! into these plain values.

use vstd::prelude::*;

verus! {

/// A key code, reduced to what the modal distinguishes: the cycling and
/// confirmation keys, printable characters (candidate shortcut keys), and
/// everything else lumped into `Other`.
#[derive(Clone, Copy, PartialEq, Eq, Structural, Debug)]
pub enum KeyCode {
    Left,
    Right,
    Enter,
    Esc,
    Char(char),
    Other,
}

/// The kind of a key event. Only presses advance the state machine;
/// releases and repeats are ignored by design.
#[derive(Clone, Copy, PartialEq, Eq, Structural, Debug)]
pub enum KeyEventKind {
    Press,
    Release,
    Repeat,
}

/// A key event: a key code together with the kind of the event.
#[derive(Clone, Copy, PartialEq, Eq, Structural, Debug)]
pub struct KeyEvent {
    pub code: KeyCode,
    pub kind: KeyEventKind,
}

impl KeyEvent {
    /// A key-press event for the given code.
    pub fn press(code: KeyCode) -> (r: KeyEvent)
        ensures
            r == (KeyEvent { code, kind: KeyEventKind::Press }),
    {
        KeyEvent { code, kind: KeyEventKind::Press }
    }
}

} // verus!
