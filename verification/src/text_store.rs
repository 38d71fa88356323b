//! The text store: the document's text, addressed by byte offset.
//!
//! The store keeps the text in a rope, so that edits and line searches take
//! time logarithmic in the size of the document. Its view is the sequence of
//! bytes of the text, which is always valid UTF-8: an edit at an offset inside
//! a character is refused with [`InvalidOffset`].

use crate::lines::{
    insert_at, lemma_search_backward, lemma_search_forward, next_line_start, prev_line_start,
    remove_range,
};
use crate::rope::{
    rope_chars, rope_edit, rope_from_str, rope_is_char_boundary, rope_len, rope_next_line,
    rope_prev_line, rope_slice, RopeBuf,
};
use std::borrow::Cow;
use vstd::prelude::*;
use vstd::utf8::{encode_utf8, encode_utf8_valid_utf8, is_char_boundary};

verus! {

/// The error of an operation addressed at an offset that lies outside the
/// text or inside a multi-byte character.
#[derive(Clone, Copy, Debug, PartialEq, Eq)]
pub struct InvalidOffset;

/// An offset found by a search, as a mathematical integer.
pub open spec fn found_offset(found: Option<usize>) -> Option<int> {
    match found {
        Some(offset) => Some(offset as int),
        None => None,
    }
}

/// Where a cursor stands after a search from `offset`: at what was found, or
/// still at `offset` when nothing was found.
pub open spec fn stepped_offset(offset: int, found: Option<usize>) -> int {
    match found {
        Some(start) => start as int,
        None => offset,
    }
}

/// True when the bytes from `start` up to `end` are whole characters of
/// `text`.
pub open spec fn is_char_range(text: Seq<u8>, start: int, end: int) -> bool {
    start <= end && is_char_boundary(text, start) && is_char_boundary(text, end)
}

/// The text of a document.
pub struct TextStore {
    rope: RopeBuf,
}

impl View for TextStore {
    type V = Seq<u8>;

    /// The bytes of the text: the UTF-8 encoding of its characters.
    open spec fn view(&self) -> Seq<u8> {
        encode_utf8(self.chars())
    }
}

impl TextStore {
    /// The characters of the text.
    pub closed spec fn chars(&self) -> Seq<char> {
        rope_chars(self.rope)
    }

    /// A store that holds `text`.
    pub fn new(text: &str) -> (store: TextStore)
        ensures
            store.chars() == text@,
    {
        TextStore { rope: rope_from_str(text) }
    }

    /// The length of the text in bytes.
    pub fn len(&self) -> (len: usize)
        ensures
            len == self@.len(),
    {
        rope_len(&self.rope)
    }

    /// Whether `offset` lies between two characters of the text, or at its
    /// start or end.
    pub fn is_char_boundary(&self, offset: usize) -> (on_boundary: bool)
        ensures
            on_boundary == is_char_boundary(self@, offset as int),
    {
        rope_is_char_boundary(&self.rope, offset)
    }

    /// The text from `start` up to `end`, borrowed from the store where it
    /// can be. Fails when the two offsets do not enclose whole characters of
    /// the text.
    pub fn slice(&self, start: usize, end: usize) -> (res: Result<Cow<'_, str>, InvalidOffset>)
        ensures
            res is Ok <==> is_char_range(self@, start as int, end as int),
            res matches Ok(text) ==> encode_utf8(text@) == self@.subrange(start as int, end as int),
    {
        if start <= end && self.is_char_boundary(start) && self.is_char_boundary(end) {
            Ok(rope_slice(&self.rope, start, end))
        } else {
            Err(InvalidOffset)
        }
    }

    /// Puts `text` in at `offset`. Fails, and changes nothing, when `offset`
    /// lies outside the text or inside a character.
    pub fn insert(&mut self, offset: usize, text: &str) -> (res: Result<(), InvalidOffset>)
        requires
            old(self)@.len() + encode_utf8(text@).len() <= usize::MAX,
        ensures
            res is Ok <==> is_char_boundary(old(self)@, offset as int),
            res is Ok ==> final(self)@ == insert_at(old(self)@, offset as int, encode_utf8(text@)),
            res is Err ==> *final(self) == *old(self),
    {
        if self.is_char_boundary(offset) {
            rope_edit(&mut self.rope, offset, offset, text);
            Ok(())
        } else {
            Err(InvalidOffset)
        }
    }

    /// Takes out the bytes from `start` up to `end`. Fails, and changes
    /// nothing, when the two offsets do not enclose whole characters of the
    /// text.
    pub fn delete(&mut self, start: usize, end: usize) -> (res: Result<(), InvalidOffset>)
        ensures
            res is Ok <==> is_char_range(old(self)@, start as int, end as int),
            res is Ok ==> final(self)@ == remove_range(old(self)@, start as int, end as int),
            res is Err ==> *final(self) == *old(self),
    {
        proof {
            encode_utf8_valid_utf8(self.chars());
        }
        if start <= end && end <= self.len() && self.is_char_boundary(start)
            && self.is_char_boundary(end) {
            proof {
                assert(encode_utf8(""@) =~= Seq::<u8>::empty()) by {
                    reveal_strlit("");
                }
            }
            rope_edit(&mut self.rope, start, end, "");
            Ok(())
        } else {
            Err(InvalidOffset)
        }
    }

    /// The start of the line behind the line that holds `offset`, if the text
    /// has one.
    pub fn next_line_start(&self, offset: usize) -> (found: Option<usize>)
        ensures
            found_offset(found) == next_line_start(self@, offset as int),
    {
        if offset >= self.len() {
            return None;
        }
        let found = rope_next_line(&self.rope, offset);
        proof {
            lemma_search_forward(self@, offset as int, found);
        }
        found
    }

    /// The last line start before `offset`, if `offset` lies in the text and
    /// behind its start.
    pub fn prev_line_start(&self, offset: usize) -> (found: Option<usize>)
        ensures
            found_offset(found) == prev_line_start(self@, offset as int),
    {
        if offset == 0 || offset > self.len() {
            return None;
        }
        let found = rope_prev_line(&self.rope, offset);
        proof {
            lemma_search_backward(self@, offset as int, found);
        }
        match found {
            Some(boundary) => Some(boundary),
            None => Some(0),
        }
    }

    /// A cursor over the lines of the text, placed at `offset`.
    pub fn line_start_cursor(&self, offset: usize) -> (cursor: LineCursor<'_>)
        ensures
            cursor.text() == self@,
            cursor.offset() == offset,
    {
        LineCursor { text: self, position: offset }
    }
}

/// A position in a text that can step from line start to line start.
pub struct LineCursor<'a> {
    text: &'a TextStore,
    position: usize,
}

impl<'a> LineCursor<'a> {
    /// The bytes of the text that the cursor walks.
    pub closed spec fn text(&self) -> Seq<u8> {
        self.text@
    }

    /// The offset at which the cursor stands.
    pub closed spec fn offset(&self) -> int {
        self.position as int
    }

    /// The offset at which the cursor stands.
    pub fn pos(&self) -> (pos: usize)
        ensures
            pos == self.offset(),
    {
        self.position
    }

    /// Steps to the start of the next line and returns it. Without a next
    /// line the cursor stays where it is.
    pub fn next(&mut self) -> (found: Option<usize>)
        ensures
            final(self).text() == old(self).text(),
            found_offset(found) == next_line_start(old(self).text(), old(self).offset()),
            final(self).offset() == stepped_offset(old(self).offset(), found),
    {
        let found = self.text.next_line_start(self.position);
        if let Some(start) = found {
            self.position = start;
        }
        found
    }

    /// Steps to the last line start before the cursor and returns it. Without
    /// one the cursor stays where it is.
    pub fn prev(&mut self) -> (found: Option<usize>)
        ensures
            final(self).text() == old(self).text(),
            found_offset(found) == prev_line_start(old(self).text(), old(self).offset()),
            final(self).offset() == stepped_offset(old(self).offset(), found),
    {
        let found = self.text.prev_line_start(self.position);
        if let Some(start) = found {
            self.position = start;
        }
        found
    }
}

} // verus!
