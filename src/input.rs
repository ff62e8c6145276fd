//! Key events as the dispatcher reads them, and what each one asks for.

use vstd::prelude::*;
use crate::cursor::Direction;

verus! {

/// The key that was pressed, as far as the dispatcher tells keys apart.
#[derive(Clone, Copy, Debug, PartialEq, Eq, Structural)]
pub enum KeyCode {
    Char(char),
    /// Any named key (arrows, function keys, ...).
    Other,
}

/// The modifier keys held during a key press.
#[derive(Clone, Copy, Debug, PartialEq, Eq, Structural)]
pub struct KeyModifiers {
    pub shift: bool,
    pub control: bool,
    pub alt: bool,
    pub super_key: bool,
    pub hyper: bool,
    pub meta: bool,
}

/// A key press with its modifiers.
#[derive(Clone, Copy, Debug, PartialEq, Eq, Structural)]
pub struct KeyEvent {
    pub code: KeyCode,
    pub modifiers: KeyModifiers,
}

/// What the terminal delivered: a key, or anything else (resize, focus,
/// paste, mouse).
#[derive(Clone, Copy, Debug, PartialEq, Eq, Structural)]
pub enum InputEvent {
    Key(KeyEvent),
    Other,
}

/// What a key asks the editor to do.
#[derive(Clone, Copy, Debug, PartialEq, Eq, Structural)]
pub enum KeyAction {
    Quit,
    Move(Direction),
    Ignore,
}

/// The character that quits when pressed with Control.
pub const QUIT_KEY: char = 'q';

impl KeyModifiers {
    pub open spec fn spec_is_none(&self) -> bool {
        !self.shift && !self.control && !self.alt && !self.super_key && !self.hyper && !self.meta
    }

    pub open spec fn spec_is_control_only(&self) -> bool {
        !self.shift && self.control && !self.alt && !self.super_key && !self.hyper && !self.meta
    }

    /// No modifier held.
    pub fn none() -> (r: KeyModifiers)
        ensures
            r.spec_is_none(),
    {
        KeyModifiers {
            shift: false,
            control: false,
            alt: false,
            super_key: false,
            hyper: false,
            meta: false,
        }
    }

    /// Control held, and nothing else.
    pub fn control() -> (r: KeyModifiers)
        ensures
            r.spec_is_control_only(),
    {
        KeyModifiers {
            shift: false,
            control: true,
            alt: false,
            super_key: false,
            hyper: false,
            meta: false,
        }
    }

    #[verifier::when_used_as_spec(spec_is_none)]
    pub fn is_none(&self) -> (r: bool)
        ensures
            r == self.spec_is_none(),
    {
        !self.shift && !self.control && !self.alt && !self.super_key && !self.hyper && !self.meta
    }

    #[verifier::when_used_as_spec(spec_is_control_only)]
    pub fn is_control_only(&self) -> (r: bool)
        ensures
            r == self.spec_is_control_only(),
    {
        !self.shift && self.control && !self.alt && !self.super_key && !self.hyper && !self.meta
    }
}

/// The movement bound to a character: `w` up, `a` left, `s` down, `d` right.
pub open spec fn spec_direction_of(c: char) -> Option<Direction> {
    if c == 'w' {
        Some(Direction::Up)
    } else if c == 'a' {
        Some(Direction::Left)
    } else if c == 's' {
        Some(Direction::Down)
    } else if c == 'd' {
        Some(Direction::Right)
    } else {
        None
    }
}

#[verifier::when_used_as_spec(spec_direction_of)]
pub fn direction_of(c: char) -> (r: Option<Direction>)
    ensures
        r == spec_direction_of(c),
{
    match c {
        'w' => Some(Direction::Up),
        'a' => Some(Direction::Left),
        's' => Some(Direction::Down),
        'd' => Some(Direction::Right),
        _ => None,
    }
}

/// Dispatch rules, first match wins: Control-`q` quits; a movement
/// character with no modifier moves; anything else is ignored.
pub open spec fn key_action(key: KeyEvent) -> KeyAction {
    match key.code {
        KeyCode::Char(c) => {
            if c == QUIT_KEY && key.modifiers.spec_is_control_only() {
                KeyAction::Quit
            } else if key.modifiers.spec_is_none() && spec_direction_of(c) is Some {
                KeyAction::Move(spec_direction_of(c)->Some_0)
            } else {
                KeyAction::Ignore
            }
        },
        KeyCode::Other => KeyAction::Ignore,
    }
}

pub fn action_of(key: &KeyEvent) -> (r: KeyAction)
    ensures
        r == key_action(*key),
{
    match key.code {
        KeyCode::Char(c) => {
            if c == QUIT_KEY && key.modifiers.is_control_only() {
                KeyAction::Quit
            } else if key.modifiers.is_none() {
                match direction_of(c) {
                    Some(d) => KeyAction::Move(d),
                    None => KeyAction::Ignore,
                }
            } else {
                KeyAction::Ignore
            }
        },
        KeyCode::Other => KeyAction::Ignore,
    }
}

} // verus!
