//! Key events, as plain values, and what each of them asks of the session.

use vstd::prelude::*;

verus! {

/// The modifier keys held down with a key.
#[derive(Clone, Copy, Debug, PartialEq, Eq, Structural)]
pub struct Modifiers {
    pub shift: bool,
    pub control: bool,
    pub alt: bool,
    pub super_key: bool,
    pub hyper: bool,
    pub meta: bool,
}

/// The key itself. Every key that the line reader does not act on is `Other`.
#[derive(Clone, Copy, Debug, PartialEq, Eq, Structural)]
pub enum KeyCode {
    Backspace,
    Enter,
    Char(char),
    Other,
}

/// One key event.
#[derive(Clone, Copy, Debug, PartialEq, Eq, Structural)]
pub struct KeyEvent {
    pub code: KeyCode,
    pub modifiers: Modifiers,
}

/// What a key event asks of the session.
#[derive(Clone, Copy, Debug, PartialEq, Eq, Structural)]
pub enum KeyAction {
    /// Leave at once.
    Interrupt,
    /// Remove the last character.
    Erase,
    /// Append the character.
    Insert(char),
    /// Hand in the line.
    Submit,
    /// Nothing.
    Ignore,
}

impl Modifiers {
    /// No modifier is held.
    pub open spec fn is_none(self) -> bool {
        !self.shift && !self.control && !self.alt && !self.super_key && !self.hyper && !self.meta
    }

    /// Control is held and no other modifier.
    pub open spec fn is_control_only(self) -> bool {
        self.control && !self.shift && !self.alt && !self.super_key && !self.hyper && !self.meta
    }

    /// No modifier.
    pub fn none() -> (m: Modifiers)
        ensures
            m.is_none(),
    {
        Modifiers {
            shift: false,
            control: false,
            alt: false,
            super_key: false,
            hyper: false,
            meta: false,
        }
    }

    /// Control alone.
    pub fn control() -> (m: Modifiers)
        ensures
            m.is_control_only(),
    {
        Modifiers {
            shift: false,
            control: true,
            alt: false,
            super_key: false,
            hyper: false,
            meta: false,
        }
    }
}

impl KeyEvent {
    /// The action of a key event. The letter `c` with Control alone
    /// interrupts. Backspace and Enter act whatever the modifiers. Every other
    /// character is inserted, also with modifiers, also `c` with Control and a
    /// second modifier.
    pub open spec fn action_spec(self) -> KeyAction {
        match self.code {
            KeyCode::Char(c) => if c == 'c' && self.modifiers.is_control_only() {
                KeyAction::Interrupt
            } else {
                KeyAction::Insert(c)
            },
            KeyCode::Backspace => KeyAction::Erase,
            KeyCode::Enter => KeyAction::Submit,
            KeyCode::Other => KeyAction::Ignore,
        }
    }

    /// A key pressed with no modifier.
    pub fn plain(code: KeyCode) -> (k: KeyEvent)
        ensures
            k.code == code,
            k.modifiers.is_none(),
    {
        KeyEvent { code, modifiers: Modifiers::none() }
    }

    /// What this key event asks of the session.
    pub fn action(&self) -> (a: KeyAction)
        ensures
            a == self.action_spec(),
    {
        let m = self.modifiers;
        let control_only = m.control && !m.shift && !m.alt && !m.super_key && !m.hyper && !m.meta;
        match self.code {
            KeyCode::Char(c) => {
                if c == 'c' && control_only {
                    KeyAction::Interrupt
                } else {
                    KeyAction::Insert(c)
                }
            },
            KeyCode::Backspace => KeyAction::Erase,
            KeyCode::Enter => KeyAction::Submit,
            KeyCode::Other => KeyAction::Ignore,
        }
    }
}

} // verus!
