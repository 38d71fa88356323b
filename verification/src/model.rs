//! The editor as a state machine over plain mathematics.
//!
//! [`UserView`] is what an editor state amounts to: the bytes of the
//! document, the viewport's anchor, the cursor and the screen size. The spec
//! functions on it say where the cursor is and what every command does. The
//! executable editor is proved against them.

use crate::lines::{
    insert_at, is_line_start, line_end, line_length, line_start_from, next_line_start,
    prev_line_start, remove_range,
};
use crate::state::Command;
use crate::text_store::is_char_range;
use vstd::prelude::*;
use vstd::utf8::{encode_utf8, is_char_boundary, valid_utf8};

verus! {

/// An editor state as mathematics.
pub struct UserView {
    /// The bytes of the document.
    pub text: Seq<u8>,
    /// The offset of the first byte of the first screen row.
    pub anchor: nat,
    /// The cursor's column, counted in bytes from the start of its line. It
    /// may lie behind the end of the line; see `clamped_column`.
    pub column: nat,
    /// The cursor's row, counted from the first screen row.
    pub row: nat,
    /// The number of columns of the screen.
    pub width: nat,
    /// The number of rows of the screen.
    pub height: nat,
}

impl UserView {
    /// What holds of every editor state: the document is valid UTF-8, the
    /// anchor is the start of a line, the cursor's row is on the screen, and
    /// the column is no greater than the document is long.
    pub open spec fn wf(self) -> bool {
        &&& valid_utf8(self.text)
        &&& is_line_start(self.text, self.anchor as int)
        &&& self.row < self.height
        &&& self.column <= self.text.len()
    }

    /// The start of the line that the cursor is on: the line `row` lines
    /// below the anchor's. `None` when the document ends above the cursor.
    pub open spec fn line_start(self) -> Option<int> {
        line_start_from(self.text, self.anchor as int, self.row)
    }

    /// The length in bytes of the line that the cursor is on, without its
    /// newline.
    pub open spec fn current_line_length(self) -> Option<int> {
        match self.line_start() {
            Some(start) => Some(line_length(self.text, start)),
            None => None,
        }
    }

    /// The greatest column at which the cursor can be shown: the length of
    /// the cursor's line, and 0 where the cursor has no line.
    pub open spec fn clamp_target(self) -> int {
        match self.current_line_length() {
            Some(length) => length,
            None => 0,
        }
    }

    /// The column at which the cursor is shown and at which edits happen: the
    /// column, but no greater than the clamp target.
    pub open spec fn clamped_column(self) -> int {
        if self.column <= self.clamp_target() {
            self.column as int
        } else {
            self.clamp_target()
        }
    }

    /// The offset in the document that the cursor refers to.
    pub open spec fn cursor_offset(self) -> Option<int> {
        match self.line_start() {
            Some(start) => Some(start + self.clamped_column()),
            None => None,
        }
    }

    /// The end of what the screen shows: the start of the line `height` lines
    /// below the anchor's, or the end of the document if it ends before.
    pub open spec fn visible_end(self) -> int {
        match line_start_from(self.text, self.anchor as int, self.height) {
            Some(end) => end,
            None => self.text.len() as int,
        }
    }

    /// The bytes of the line shown on screen row `row`, without its newline.
    /// `None` for a row below the screen and for a row at or below which the
    /// document has ended.
    pub open spec fn visible_line(self, row: nat) -> Option<Seq<u8>> {
        if row < self.height {
            match line_start_from(self.text, self.anchor as int, row) {
                Some(start) => if start < self.text.len() {
                    Some(self.text.subrange(start, line_end(self.text, start)))
                } else {
                    None
                },
                None => None,
            }
        } else {
            None
        }
    }

    /// The state after the viewport has moved up by one line, if there is a
    /// line above it.
    pub open spec fn scroll_up(self) -> UserView {
        match prev_line_start(self.text, self.anchor as int) {
            Some(above) => UserView { anchor: above as nat, ..self },
            None => self,
        }
    }

    /// The state after the viewport has moved down by one line, if its first
    /// line has a line below it.
    pub open spec fn scroll_down(self) -> UserView {
        match next_line_start(self.text, self.anchor as int) {
            Some(below) => UserView { anchor: below as nat, ..self },
            None => self,
        }
    }

    /// The state after `Up`.
    pub open spec fn up(self) -> UserView {
        if self.row > 0 {
            UserView { row: (self.row - 1) as nat, ..self }
        } else {
            self.scroll_up()
        }
    }

    /// The state after `Down`.
    pub open spec fn down(self) -> UserView {
        match self.line_start() {
            Some(start) => if next_line_start(self.text, start) is None {
                self
            } else if self.row + 1 < self.height {
                UserView { row: self.row + 1, ..self }
            } else {
                self.scroll_down()
            },
            None => self,
        }
    }

    /// The state after `Left`.
    pub open spec fn left(self) -> UserView {
        let clamped = self.clamped_column();
        UserView {
            column: if clamped > 0 {
                (clamped - 1) as nat
            } else {
                0
            },
            ..self
        }
    }

    /// The state after `Right`.
    pub open spec fn right(self) -> UserView {
        UserView {
            column: if self.column + 1 <= self.clamp_target() {
                self.column + 1
            } else {
                self.clamp_target() as nat
            },
            ..self
        }
    }

    /// The state after `JumpToBottom`.
    pub open spec fn jump_to_bottom(self) -> UserView {
        UserView { row: (self.height - 1) as nat, ..self }
    }

    /// The state after `InsertCharacter(c)`, where the document takes the
    /// character.
    pub open spec fn insert_character(self, c: char) -> UserView {
        match self.cursor_offset() {
            Some(offset) => UserView {
                text: insert_at(self.text, offset, encode_utf8(seq![c])),
                column: self.column + 1,
                ..self
            },
            None => self,
        }
    }

    /// The state after `DeleteBackward`, where the document gives the byte
    /// up.
    pub open spec fn delete_backward(self) -> UserView {
        match self.line_start() {
            Some(start) => if self.clamped_column() > 0 {
                let offset = start + self.clamped_column();
                UserView {
                    text: remove_range(self.text, offset - 1, offset),
                    column: (self.column - 1) as nat,
                    ..self
                }
            } else if self.row > 0 {
                let merged = UserView {
                    text: remove_range(self.text, start - 1, start),
                    row: (self.row - 1) as nat,
                    ..self
                };
                UserView { column: merged.clamp_target() as nat, ..merged }
            } else {
                self
            },
            None => self,
        }
    }

    /// True when the document refuses `command`: an insertion inside a
    /// multi-byte character, or the deletion of a byte that is not a whole
    /// character.
    pub open spec fn rejects(self, command: Command) -> bool {
        match command {
            Command::InsertCharacter(_) => {
                &&& self.cursor_offset() matches Some(offset)
                &&& !is_char_boundary(self.text, offset)
            },
            Command::DeleteBackward => {
                &&& self.cursor_offset() matches Some(offset)
                &&& self.clamped_column() > 0
                &&& !is_char_range(self.text, offset - 1, offset)
            },
            _ => false,
        }
    }

    /// The state after `command`. A command that the document refuses changes
    /// nothing.
    pub open spec fn apply(self, command: Command) -> UserView {
        if self.rejects(command) {
            self
        } else {
            match command {
                Command::Up => self.up(),
                Command::Down => self.down(),
                Command::Left => self.left(),
                Command::Right => self.right(),
                Command::JumpToBottom => self.jump_to_bottom(),
                Command::InsertCharacter(c) => self.insert_character(c),
                Command::DeleteBackward => self.delete_backward(),
            }
        }
    }

    /// The state after the commands of `commands`, one after the other.
    pub open spec fn run(self, commands: Seq<Command>) -> UserView
        decreases commands.len(),
    {
        if commands.len() == 0 {
            self
        } else {
            self.run(commands.drop_last()).apply(commands.last())
        }
    }
}

} // verus!
