//! Key presses.

use vstd::prelude::*;

use crate::text::to_upper_char;

verus! {

/// A key on the keyboard.
#[derive(Clone, Copy, Debug, PartialEq, Eq, Structural)]
pub enum KeyCode {
    Backspace,
    Enter,
    Left,
    Right,
    Up,
    Down,
    Home,
    End,
    PageUp,
    PageDown,
    Tab,
    BackTab,
    Delete,
    Insert,
    F(u8),
    Char(char),
    Esc,
    /// No key.
    Null,
    /// A key that types nothing and has no code.
    Other,
}

/// The shift key is held.
pub const SHIFT: u8 = 0x1;

/// The control key is held.
pub const CONTROL: u8 = 0x2;

/// The alt key is held.
pub const ALT: u8 = 0x4;

/// The control and alt keys are held.
pub const CONTROL_ALT: u8 = 0x6;

/// A key, and which modifiers are held with it.
#[derive(Clone, Copy, Debug, PartialEq, Eq, Structural)]
pub struct KeyEvent {
    pub code: KeyCode,
    pub modifiers: u8,
}

impl KeyEvent {
    /// Whether the shift key is held.
    pub open spec fn shift_held(self) -> bool {
        self.modifiers % 2 == 1
    }

    /// Whether the control key is held.
    pub open spec fn ctrl_held(self) -> bool {
        (self.modifiers / 2) % 2 == 1
    }

    /// Whether the shift key is held.
    pub fn shift(self) -> (r: bool)
        ensures
            r == self.shift_held(),
    {
        self.modifiers % 2 == 1
    }

    /// Whether the control key is held.
    pub fn ctrl(self) -> (r: bool)
        ensures
            r == self.ctrl_held(),
    {
        (self.modifiers / 2) % 2 == 1
    }

    /// The combination of keys that was pressed: with shift, letters are upper-case;
    /// an upper-case letter comes with shift.
    pub open spec fn combination(self) -> KeyEvent {
        match self.code {
            KeyCode::Char(c) => if c == '\r' || c == '\n' {
                KeyEvent { code: KeyCode::Enter, ..self }
            } else if self.shift_held() {
                KeyEvent { code: KeyCode::Char(crate::text::upper_char(c)), ..self }
            } else if 'A' <= c && c <= 'Z' {
                KeyEvent { modifiers: (self.modifiers + 1) as u8, ..self }
            } else {
                self
            },
            _ => self,
        }
    }

    /// The combination of keys that was pressed.
    pub fn to_combination(self) -> (r: KeyEvent)
        ensures
            r == self.combination(),
    {
        match self.code {
            KeyCode::Char(c) => if c == '\r' || c == '\n' {
                KeyEvent { code: KeyCode::Enter, modifiers: self.modifiers }
            } else if self.shift() {
                KeyEvent { code: KeyCode::Char(to_upper_char(c)), modifiers: self.modifiers }
            } else if 'A' <= c && c <= 'Z' {
                KeyEvent { code: self.code, modifiers: self.modifiers + 1 }
            } else {
                self
            },
            _ => self,
        }
    }
}

/// Whether this interrupts the program.
pub fn is_ctrl_c(key: &KeyEvent) -> (r: bool)
    ensures
        r == interrupts(*key),
{
    key.code == KeyCode::Char('c') && key.modifiers == CONTROL
}

/// Whether a key interrupts the program.
pub open spec fn interrupts(key: KeyEvent) -> bool {
    key.code == KeyCode::Char('c') && key.modifiers == CONTROL
}

} // verus!
