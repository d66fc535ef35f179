//! Typed input events produced by the decoder: keys with optional modifier
//! flags, pointer reports, and runs of bytes the decoder does not understand.

use vstd::prelude::*;

verus! {

/// Modifier flags that may accompany a key or pointer event.
#[derive(Clone, Copy, Debug, PartialEq, Eq, Structural)]
pub struct Mods {
    pub shift: bool,
    pub alt: bool,
    pub ctrl: bool,
}

/// No modifier held.
pub open spec fn no_mods() -> Mods {
    Mods { shift: false, alt: false, ctrl: false }
}

/// Only the alt modifier held.
pub open spec fn alt_mods() -> Mods {
    Mods { shift: false, alt: true, ctrl: false }
}

/// Only the ctrl modifier held.
pub open spec fn ctrl_mods() -> Mods {
    Mods { shift: false, alt: false, ctrl: true }
}

/// A key, either a plain character or a named non-printing key.
#[derive(Clone, Copy, Debug, PartialEq, Eq, Structural)]
pub enum Key {
    /// A character, from a printable byte or a decoded multi-byte text unit.
    Char(char),
    /// The up arrow.
    Up,
    /// The down arrow.
    Down,
    /// The left arrow.
    Left,
    /// The right arrow.
    Right,
    /// The home key.
    Home,
    /// The end key.
    End,
    /// The page-up key.
    PageUp,
    /// The page-down key.
    PageDown,
    /// The insert key.
    Insert,
    /// The delete key.
    Delete,
    /// The backspace key.
    Backspace,
    /// The tab key.
    Tab,
    /// The enter (return) key.
    Enter,
    /// The escape key on its own.
    Esc,
    /// A function key, numbered from 1.
    F(u8),
    /// The NUL byte.
    Null,
}

/// A key press together with the modifiers held with it.
#[derive(Clone, Copy, Debug, PartialEq, Eq, Structural)]
pub struct KeyEvent {
    pub key: Key,
    pub mods: Mods,
}

/// A pointer button named in a pointer report.
#[derive(Clone, Copy, Debug, PartialEq, Eq, Structural)]
pub enum MouseButton {
    /// The left button.
    Left,
    /// The middle button.
    Middle,
    /// The right button.
    Right,
    /// One notch of the wheel away from the user.
    WheelUp,
    /// One notch of the wheel towards the user.
    WheelDown,
}

/// What a pointer report says happened.
#[derive(Clone, Copy, Debug, PartialEq, Eq, Structural)]
pub enum MouseKind {
    /// A button was pressed.
    Press(MouseButton),
    /// The pressed button was released.
    Release,
    /// The pointer moved while a button was held.
    Drag,
}

/// A pointer event: the action, the modifiers held, and the one-based screen
/// cell it happened at. Coordinates are carried as reported; the decoder does
/// not interpret them against screen bounds.
#[derive(Clone, Copy, Debug, PartialEq, Eq, Structural)]
pub struct MouseEvent {
    pub kind: MouseKind,
    pub mods: Mods,
    pub col: u16,
    pub row: u16,
}

/// One decoded input event.
#[derive(Clone, Debug, PartialEq, Eq)]
pub enum InputEvent {
    /// A key press.
    Key(KeyEvent),
    /// A pointer report.
    Mouse(MouseEvent),
    /// A run of bytes that matched no recognized encoding. Carried as data so
    /// that nothing is ever silently dropped; decoding resumes after it.
    Unsupported(Vec<u8>),
}

/// The mathematical value of an [`InputEvent`], with byte runs as sequences.
#[verifier::ext_equal]
pub enum EventModel {
    Key(KeyEvent),
    Mouse(MouseEvent),
    Unsupported(Seq<u8>),
}

impl View for InputEvent {
    type V = EventModel;

    open spec fn view(&self) -> EventModel {
        match self {
            InputEvent::Key(k) => EventModel::Key(*k),
            InputEvent::Mouse(m) => EventModel::Mouse(*m),
            InputEvent::Unsupported(bytes) => EventModel::Unsupported(bytes@),
        }
    }
}

/// The values of a sequence of events.
pub open spec fn views_of(evs: Seq<InputEvent>) -> Seq<EventModel> {
    evs.map(|i: int, e: InputEvent| e@)
}

/// A key event with no modifiers, as a model value.
pub open spec fn key_event(k: Key) -> EventModel {
    EventModel::Key(KeyEvent { key: k, mods: no_mods() })
}

} // verus!
