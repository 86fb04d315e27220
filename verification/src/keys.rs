//! Key events as the editor's key handling sees them: the key that was
//! pressed, the modifier keys held with it, and whether it was pressed,
//! repeated or released.
use vstd::prelude::*;

verus! {

/// The key of a key event.
#[derive(Clone, Copy, Debug, PartialEq, Eq, Structural)]
pub enum KeyCode {
    Backspace,
    Enter,
    Left,
    Right,
    Up,
    Down,
    Home,
    End,
    PageUp,
    PageDown,
    Tab,
    BackTab,
    Delete,
    Insert,
    F(u8),
    Char(char),
    Null,
    Esc,
    CapsLock,
    ScrollLock,
    NumLock,
    PrintScreen,
    Pause,
    Menu,
    KeypadBegin,
    /// A media key or a lone modifier key.
    Other,
}

/// The modifier keys held during a key event, one bit each:
/// shift 1, control 2, alt 4, super 8, hyper 16, meta 32.
#[derive(Clone, Copy, Debug, PartialEq, Eq, Structural)]
pub struct KeyModifiers {
    pub bits: u8,
}

pub const SHIFT_BIT: u8 = 1;

pub const CONTROL_BIT: u8 = 2;

pub const ALT_BIT: u8 = 4;

pub const SUPER_BIT: u8 = 8;

pub const HYPER_BIT: u8 = 16;

pub const META_BIT: u8 = 32;

impl KeyModifiers {
    /// No modifier held.
    pub fn none() -> (m: KeyModifiers)
        ensures
            m.bits == 0,
    {
        KeyModifiers { bits: 0 }
    }

    /// Shift alone.
    pub fn shift() -> (m: KeyModifiers)
        ensures
            m.bits == SHIFT_BIT,
    {
        KeyModifiers { bits: SHIFT_BIT }
    }

    /// The modifiers whose bits are set in `bits`.
    pub fn from_bits(bits: u8) -> (m: KeyModifiers)
        ensures
            m.bits == bits,
    {
        KeyModifiers { bits }
    }

    pub open spec fn is_none(self) -> bool {
        self.bits == 0
    }

    pub open spec fn is_shift(self) -> bool {
        self.bits == SHIFT_BIT
    }
}

/// Whether a key went down, repeats while held, or went up.
#[derive(Clone, Copy, Debug, PartialEq, Eq, Structural)]
pub enum KeyEventKind {
    Press,
    Repeat,
    Release,
}

/// One key event.
#[derive(Clone, Copy, Debug, PartialEq, Eq, Structural)]
pub struct KeyEvent {
    pub code: KeyCode,
    pub modifiers: KeyModifiers,
    pub kind: KeyEventKind,
}

impl KeyEvent {
    /// A press of `code` with `modifiers` held.
    pub fn new(code: KeyCode, modifiers: KeyModifiers) -> (k: KeyEvent)
        ensures
            k.code == code,
            k.modifiers == modifiers,
            k.kind == KeyEventKind::Press,
    {
        KeyEvent { code, modifiers, kind: KeyEventKind::Press }
    }

    /// An event of the given kind for `code` with `modifiers` held.
    pub fn new_with_kind(code: KeyCode, modifiers: KeyModifiers, kind: KeyEventKind) -> (k:
        KeyEvent)
        ensures
            k.code == code,
            k.modifiers == modifiers,
            k.kind == kind,
    {
        KeyEvent { code, modifiers, kind }
    }

    /// The key `code` with no modifier held.
    pub open spec fn is_plain(self, code: KeyCode) -> bool {
        self.code == code && self.modifiers.is_none()
    }

    /// The key `code` with shift alone held.
    pub open spec fn is_shifted(self, code: KeyCode) -> bool {
        self.code == code && self.modifiers.is_shift()
    }
}

} // verus!
