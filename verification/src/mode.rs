//! The editor's modes, and what a key means in each of them.

use crate::state::Command;
use vstd::prelude::*;

verus! {

/// How the editor reads the keyboard.
#[derive(Clone, Copy, Debug, PartialEq, Eq)]
pub enum Mode {
    /// Keys are commands.
    Normal,
    /// Keys are text.
    Insert,
}

/// A key of the keyboard.
#[derive(Clone, Copy, Debug, PartialEq, Eq)]
pub enum Key {
    /// A key that stands for a character.
    Char(char),
    /// The escape key.
    Esc,
    /// The backspace key.
    Backspace,
    /// The up arrow.
    Up,
    /// The down arrow.
    Down,
    /// The left arrow.
    Left,
    /// The right arrow.
    Right,
    /// Any other key or event.
    Other,
}

/// What the editor does in answer to a key.
#[derive(Clone, Copy, Debug, PartialEq, Eq)]
pub enum Action {
    /// Leave the editor.
    Quit,
    /// Apply a command to the editor state.
    Apply(Command),
    /// Do nothing to the editor state.
    Nothing,
}

impl Default for Mode {
    /// The mode in which the editor starts.
    fn default() -> (mode: Mode)
        ensures
            mode == Mode::Normal,
    {
        Mode::Normal
    }
}

impl Mode {
    /// True when `command` can come up in this mode: the four motions in both
    /// modes, the jump to the bottom in normal mode only, the edits in insert
    /// mode only.
    pub open spec fn allows(self, command: Command) -> bool {
        match command {
            Command::Up | Command::Down | Command::Left | Command::Right => true,
            Command::JumpToBottom => self == Mode::Normal,
            Command::InsertCharacter(_) | Command::DeleteBackward => self == Mode::Insert,
        }
    }

    /// The mode after `key` was pressed in this mode: `i` leads from normal
    /// to insert mode, the escape key leads back.
    pub open spec fn after(self, key: Key) -> Mode {
        match (self, key) {
            (Mode::Normal, Key::Char('i')) => Mode::Insert,
            (Mode::Insert, Key::Esc) => Mode::Normal,
            _ => self,
        }
    }

    /// What pressing `key` in this mode asks for.
    pub open spec fn action(self, key: Key) -> Action {
        match (self, key) {
            (_, Key::Up) => Action::Apply(Command::Up),
            (_, Key::Down) => Action::Apply(Command::Down),
            (_, Key::Left) => Action::Apply(Command::Left),
            (_, Key::Right) => Action::Apply(Command::Right),
            (Mode::Normal, Key::Char('q')) => Action::Quit,
            (Mode::Normal, Key::Char('G')) => Action::Apply(Command::JumpToBottom),
            (Mode::Normal, Key::Char('k')) => Action::Apply(Command::Up),
            (Mode::Normal, Key::Char('j')) => Action::Apply(Command::Down),
            (Mode::Normal, Key::Char('h')) => Action::Apply(Command::Left),
            (Mode::Normal, Key::Char('l')) => Action::Apply(Command::Right),
            (Mode::Insert, Key::Char(c)) => Action::Apply(Command::InsertCharacter(c)),
            (Mode::Insert, Key::Backspace) => Action::Apply(Command::DeleteBackward),
            _ => Action::Nothing,
        }
    }

    /// Whether `command` can come up in this mode.
    pub fn is_allowed(self, command: &Command) -> (allowed: bool)
        ensures
            allowed == self.allows(*command),
    {
        match command {
            Command::Up | Command::Down | Command::Left | Command::Right => true,
            Command::JumpToBottom => matches!(self, Mode::Normal),
            Command::InsertCharacter(_) | Command::DeleteBackward => matches!(self, Mode::Insert),
        }
    }

    /// Reads `key` in this mode: the mode to go on in, and what to do. A
    /// command is only ever asked for in a mode that allows it, and the
    /// editor is only ever left from normal mode.
    pub fn on_key(self, key: Key) -> (step: (Mode, Action))
        ensures
            step.0 == self.after(key),
            step.1 == self.action(key),
            step.1 matches Action::Apply(command) ==> self.allows(command),
            step.1 == Action::Quit ==> self == Mode::Normal,
            step.0 != self ==> step.1 == Action::Nothing,
    {
        match (self, key) {
            (_, Key::Up) => (self, Action::Apply(Command::Up)),
            (_, Key::Down) => (self, Action::Apply(Command::Down)),
            (_, Key::Left) => (self, Action::Apply(Command::Left)),
            (_, Key::Right) => (self, Action::Apply(Command::Right)),
            (Mode::Normal, Key::Char(c)) => {
                if c == 'q' {
                    (Mode::Normal, Action::Quit)
                } else if c == 'i' {
                    (Mode::Insert, Action::Nothing)
                } else if c == 'G' {
                    (Mode::Normal, Action::Apply(Command::JumpToBottom))
                } else if c == 'k' {
                    (Mode::Normal, Action::Apply(Command::Up))
                } else if c == 'j' {
                    (Mode::Normal, Action::Apply(Command::Down))
                } else if c == 'h' {
                    (Mode::Normal, Action::Apply(Command::Left))
                } else if c == 'l' {
                    (Mode::Normal, Action::Apply(Command::Right))
                } else {
                    (Mode::Normal, Action::Nothing)
                }
            },
            (Mode::Insert, Key::Esc) => (Mode::Normal, Action::Nothing),
            (Mode::Insert, Key::Char(c)) => (Mode::Insert, Action::Apply(Command::InsertCharacter(c))),
            (Mode::Insert, Key::Backspace) => (Mode::Insert, Action::Apply(Command::DeleteBackward)),
            _ => (self, Action::Nothing),
        }
    }
}

} // verus!
