//! The editor state: the document, the viewport and the cursor, and the
//! commands that change them.

use crate::laws::{
    lemma_apply_preserves_wf, lemma_cursor_in_document, lemma_merge_is_accepted,
    lemma_scroll_preserves_wf,
};
use crate::lines::{
    lemma_line_end_is_char_boundary, lemma_line_start_from, lemma_line_start_from_none,
    lemma_line_start_is_char_boundary, lemma_next_line_start, line_start_from,
};
use crate::model::UserView;
use crate::rope::char_to_string;
use crate::text_store::{found_offset, is_char_range, InvalidOffset, LineCursor, TextStore};
use std::borrow::Cow;
use vstd::prelude::*;
use vstd::utf8::{encode_utf8, encode_utf8_valid_utf8};

verus! {

/// What the user can ask of the editor.
#[derive(Clone, Copy, Debug, PartialEq, Eq)]
pub enum Command {
    /// Move the cursor one row up, scrolling at the top of the screen.
    Up,
    /// Move the cursor one row down, scrolling at the bottom of the screen.
    Down,
    /// Move the cursor one column to the left.
    Left,
    /// Move the cursor one column to the right.
    Right,
    /// Move the cursor to the last row of the screen.
    JumpToBottom,
    /// Put a character into the document at the cursor.
    InsertCharacter(char),
    /// Take the byte before the cursor out of the document, or join the
    /// cursor's line to the line above.
    DeleteBackward,
}

/// The state of an editor: a document, the part of it on screen, and the
/// user's cursor.
pub struct User {
    byte_offset_to_top_left: usize,
    /// Column and row, both counted from 0 at the top left of the screen.
    cursor_pos: (usize, u16),
    screen_size: (u16, u16),
    text: TextStore,
}

impl View for User {
    type V = UserView;

    closed spec fn view(&self) -> UserView {
        UserView {
            text: self.text@,
            anchor: self.byte_offset_to_top_left as nat,
            column: self.cursor_pos.0 as nat,
            row: self.cursor_pos.1 as nat,
            width: self.screen_size.0 as nat,
            height: self.screen_size.1 as nat,
        }
    }
}

impl User {
    /// What holds of every editor state.
    pub open spec fn wf(&self) -> bool {
        self@.wf()
    }

    /// An editor on `text`, with the viewport at the start of the document
    /// and the cursor at the top left of a screen of `screen_size` (columns,
    /// then rows).
    pub fn new(screen_size: (u16, u16), text: &str) -> (user: User)
        requires
            screen_size.1 >= 1,
        ensures
            user.wf(),
            user@ == (UserView {
                text: encode_utf8(text@),
                anchor: 0,
                column: 0,
                row: 0,
                width: screen_size.0 as nat,
                height: screen_size.1 as nat,
            }),
    {
        let text = TextStore::new(text);
        proof {
            encode_utf8_valid_utf8(text.chars());
        }
        User { byte_offset_to_top_left: 0, cursor_pos: (0, 0), screen_size, text }
    }

    /// The cursor's column as the user left it. It may lie behind the end of
    /// the cursor's line: see `clamped_column`.
    pub fn cursor_x(&self) -> (column: usize)
        ensures
            column == self@.column,
    {
        self.cursor_pos.0
    }

    /// The cursor's row on the screen.
    pub fn cursor_y(&self) -> (row: u16)
        ensures
            row == self@.row,
    {
        self.cursor_pos.1
    }

    /// The number of rows of the screen.
    pub fn height(&self) -> (height: u16)
        ensures
            height == self@.height,
    {
        self.screen_size.1
    }

    /// The number of columns of the screen.
    pub fn width(&self) -> (width: u16)
        ensures
            width == self@.width,
    {
        self.screen_size.0
    }

    /// The length of the document in bytes.
    pub fn len(&self) -> (len: usize)
        ensures
            len == self@.text.len(),
    {
        self.text.len()
    }

    /// The text of the document from `start` up to `end`, borrowed from the
    /// document where it can be. Fails when the two offsets do not enclose
    /// whole characters of the document.
    pub fn slice_to_cow(&self, start: usize, end: usize) -> (res: Result<Cow<'_, str>, InvalidOffset>)
        ensures
            res is Ok <==> is_char_range(self@.text, start as int, end as int),
            res matches Ok(text) ==> encode_utf8(text@) == self@.text.subrange(
                start as int,
                end as int,
            ),
    {
        self.text.slice(start, end)
    }

    /// A line cursor at the first byte of the screen.
    pub fn start_of_screen(&self) -> (cursor: LineCursor<'_>)
        ensures
            cursor.text() == self@.text,
            cursor.offset() == self@.anchor,
    {
        self.text.line_start_cursor(self.byte_offset_to_top_left)
    }

    /// A line cursor at the start of the cursor's line. `None` when the
    /// document ends above the cursor's row.
    pub fn start_of_current_line(&self) -> (res: Option<LineCursor<'_>>)
        ensures
            (match res {
                Some(cursor) => cursor.text() == self@.text && self@.line_start() == Some(
                    cursor.offset(),
                ),
                None => self@.line_start() is None,
            }),
    {
        let mut cursor = self.start_of_screen();
        let mut below: u16 = 0;
        while below < self.cursor_pos.1
            invariant
                below <= self.cursor_pos.1,
                cursor.text() == self@.text,
                line_start_from(self@.text, self@.anchor as int, below as nat) == Some(
                    cursor.offset(),
                ),
            decreases self.cursor_pos.1 - below,
        {
            if cursor.next().is_none() {
                proof {
                    lemma_line_start_from_none(
                        self@.text,
                        self@.anchor as int,
                        (below + 1) as nat,
                        self@.row,
                    );
                }
                return None;
            }
            below += 1;
        }
        Some(cursor)
    }

    /// The start and the length of the cursor's line.
    fn current_line(&self) -> (res: Option<(usize, usize)>)
        requires
            self.wf(),
        ensures
            (match res {
                Some((start, length)) => {
                    &&& self@.line_start() == Some(start as int)
                    &&& self@.current_line_length() == Some(length as int)
                    &&& start + length <= self@.text.len()
                    &&& start + length <= usize::MAX
                },
                None => self@.line_start() is None,
            }),
    {
        match self.start_of_current_line() {
            Some(mut cursor) => {
                let start = cursor.pos();
                proof {
                    lemma_line_start_from(self@.text, self@.anchor as int, self@.row);
                    lemma_next_line_start(self@.text, start as int);
                }
                let end = match cursor.next() {
                    Some(next) => next - 1,
                    None => self.text.len(),
                };
                Some((start, end - start))
            },
            None => None,
        }
    }

    /// The length in bytes of the cursor's line, without its newline. `None`
    /// when the document ends above the cursor's row.
    pub fn current_line_length(&self) -> (res: Option<usize>)
        requires
            self.wf(),
        ensures
            found_offset(res) == self@.current_line_length(),
    {
        match self.current_line() {
            Some((_, length)) => Some(length),
            None => None,
        }
    }

    /// The column at which the cursor is shown: the cursor's column, held
    /// within its line.
    pub fn clamped_column(&self) -> (column: usize)
        requires
            self.wf(),
        ensures
            column == self@.clamped_column(),
            0 <= column <= self@.clamp_target(),
    {
        match self.current_line() {
            Some((_, length)) => if self.cursor_pos.0 <= length {
                self.cursor_pos.0
            } else {
                length
            },
            None => 0,
        }
    }

    /// The offset in the document that the cursor refers to. `None` when the
    /// document ends above the cursor's row.
    pub fn cursor_offset(&self) -> (res: Option<usize>)
        requires
            self.wf(),
        ensures
            found_offset(res) == self@.cursor_offset(),
    {
        match self.current_line() {
            Some((start, length)) => if self.cursor_pos.0 <= length {
                Some(start + self.cursor_pos.0)
            } else {
                Some(start + length)
            },
            None => None,
        }
    }

    /// Where to show the cursor on the screen: the clamped column and the
    /// row, without any margin.
    pub fn cursor_screen_position(&self) -> (position: (usize, u16))
        requires
            self.wf(),
        ensures
            position.0 == self@.clamped_column(),
            position.1 == self@.row,
    {
        (self.clamped_column(), self.cursor_pos.1)
    }

    /// The part of the document on screen: from the anchor up to the start of
    /// the line `height` lines below it, or up to the end of the document if
    /// that comes first.
    pub fn visible_range(&self) -> (range: (usize, usize))
        requires
            self.wf(),
        ensures
            range.0 == self@.anchor,
            range.1 == self@.visible_end(),
    {
        let mut cursor = self.start_of_screen();
        let mut below: u16 = 0;
        while below < self.screen_size.1
            invariant
                below <= self.screen_size.1,
                cursor.text() == self@.text,
                line_start_from(self@.text, self@.anchor as int, below as nat) == Some(
                    cursor.offset(),
                ),
            decreases self.screen_size.1 - below,
        {
            if cursor.next().is_none() {
                proof {
                    lemma_line_start_from_none(
                        self@.text,
                        self@.anchor as int,
                        (below + 1) as nat,
                        self@.height,
                    );
                }
                return (self.byte_offset_to_top_left, self.text.len());
            }
            below += 1;
        }
        (self.byte_offset_to_top_left, cursor.pos())
    }

    /// The lines on screen, from the top: each with its row and its text
    /// without the newline, however long the line is. The list ends with the
    /// last row of the screen or where the document ends.
    pub fn visible_lines(&self) -> (lines: Vec<(u16, Cow<'_, str>)>)
        requires
            self.wf(),
        ensures
            forall|row: int|
                0 <= row < lines@.len() ==> lines@[row].0 == row && self@.visible_line(row as nat)
                    == Some(encode_utf8(lines@[row].1@)),
            self@.visible_line(lines@.len()) is None,
    {
        let len = self.text.len();
        let mut lines: Vec<(u16, Cow<'_, str>)> = Vec::new();
        let mut cursor = self.start_of_screen();
        let mut row: u16 = 0;
        let mut more = true;
        while more && row < self.screen_size.1 && cursor.pos() < len
            invariant
                self.wf(),
                len == self@.text.len(),
                row <= self.screen_size.1,
                lines@.len() == row,
                cursor.text() == self@.text,
                cursor.offset() <= len,
                more ==> line_start_from(self@.text, self@.anchor as int, row as nat) == Some(
                    cursor.offset(),
                ),
                !more ==> line_start_from(self@.text, self@.anchor as int, row as nat) is None,
                forall|above: int|
                    0 <= above < row ==> lines@[above].0 == above && self@.visible_line(
                        above as nat,
                    ) == Some(encode_utf8(lines@[above].1@)),
            decreases self.screen_size.1 - row,
        {
            let start = cursor.pos();
            proof {
                lemma_line_start_from(self@.text, self@.anchor as int, row as nat);
                lemma_next_line_start(self@.text, start as int);
                lemma_line_start_is_char_boundary(self@.text, start as int);
                lemma_line_end_is_char_boundary(self@.text, start as int);
            }
            let end = match cursor.next() {
                Some(next) => next - 1,
                None => {
                    more = false;
                    len
                },
            };
            if let Ok(text) = self.text.slice(start, end) {
                lines.push((row, text));
            }
            row += 1;
        }
        lines
    }

    /// Moves the viewport one line up, if the document has a line above it.
    pub fn scroll_up(&mut self)
        requires
            old(self).wf(),
        ensures
            final(self).wf(),
            final(self)@ == old(self)@.scroll_up(),
    {
        proof {
            lemma_scroll_preserves_wf(self@);
        }
        let mut cursor = self.start_of_screen();
        if let Some(above) = cursor.prev() {
            self.byte_offset_to_top_left = above;
        }
    }

    /// Moves the viewport one line down, if its first line has a line below
    /// it.
    pub fn scroll_down(&mut self)
        requires
            old(self).wf(),
        ensures
            final(self).wf(),
            final(self)@ == old(self)@.scroll_down(),
    {
        proof {
            lemma_scroll_preserves_wf(self@);
        }
        let mut cursor = self.start_of_screen();
        if let Some(below) = cursor.next() {
            self.byte_offset_to_top_left = below;
        }
    }

    /// Applies `command` to the editor. The one failure is an edit that the
    /// document refuses because it would split a multi-byte character; it
    /// leaves the editor as it was.
    pub fn handle_event(&mut self, command: &Command) -> (res: Result<(), InvalidOffset>)
        requires
            old(self).wf(),
            *command matches Command::InsertCharacter(c) ==> old(self)@.text.len() + encode_utf8(
                seq![c],
            ).len() <= usize::MAX,
        ensures
            final(self).wf(),
            res is Err <==> old(self)@.rejects(*command),
            final(self)@ == old(self)@.apply(*command),
    {
        proof {
            lemma_apply_preserves_wf(self@, *command);
        }
        match command {
            Command::Up => {
                if self.cursor_pos.1 > 0 {
                    self.cursor_pos.1 -= 1;
                } else {
                    self.scroll_up();
                }
                Ok(())
            },
            Command::Down => {
                let has_next = match self.start_of_current_line() {
                    Some(mut cursor) => cursor.next().is_some(),
                    None => false,
                };
                if has_next {
                    if self.cursor_pos.1 < self.screen_size.1 - 1 {
                        self.cursor_pos.1 += 1;
                    } else {
                        self.scroll_down();
                    }
                }
                Ok(())
            },
            Command::Left => {
                let clamped = self.clamped_column();
                self.cursor_pos.0 = if clamped > 0 {
                    clamped - 1
                } else {
                    0
                };
                Ok(())
            },
            Command::Right => {
                let length = match self.current_line_length() {
                    Some(length) => length,
                    None => 0,
                };
                self.cursor_pos.0 = if self.cursor_pos.0 < length {
                    self.cursor_pos.0 + 1
                } else {
                    length
                };
                Ok(())
            },
            Command::JumpToBottom => {
                self.cursor_pos.1 = self.screen_size.1 - 1;
                Ok(())
            },
            Command::InsertCharacter(c) => {
                match self.cursor_offset() {
                    Some(offset) => {
                        let inserted = char_to_string(*c);
                        match self.text.insert(offset, inserted.as_str()) {
                            Ok(()) => {
                                self.cursor_pos.0 += 1;
                                Ok(())
                            },
                            Err(refused) => Err(refused),
                        }
                    },
                    None => Ok(()),
                }
            },
            Command::DeleteBackward => {
                match self.current_line() {
                    Some((start, length)) => {
                        let clamped = if self.cursor_pos.0 <= length {
                            self.cursor_pos.0
                        } else {
                            length
                        };
                        if clamped > 0 {
                            let offset = start + clamped;
                            match self.text.delete(offset - 1, offset) {
                                Ok(()) => {
                                    self.cursor_pos.0 -= 1;
                                    Ok(())
                                },
                                Err(refused) => Err(refused),
                            }
                        } else if self.cursor_pos.1 > 0 {
                            proof {
                                lemma_merge_is_accepted(self@);
                            }
                            match self.text.delete(start - 1, start) {
                                Ok(()) => {
                                    self.cursor_pos.1 -= 1;
                                    self.cursor_pos.0 = 0;
                                    self.cursor_pos.0 = match self.current_line_length() {
                                        Some(merged) => merged,
                                        None => 0,
                                    };
                                    Ok(())
                                },
                                Err(refused) => Err(refused),
                            }
                        } else {
                            Ok(())
                        }
                    },
                    None => Ok(()),
                }
            },
        }
    }
}

} // verus!
