//! Lines of a text, as mathematics over its bytes.
//!
//! A line starts at the beginning of the text and just behind every newline
//! byte. The functions here say where lines start and end; the lemmas relate
//! them to what a search in the rope returns and to character boundaries.

use crate::rope::{is_first_boundary_after, is_last_boundary_before, is_newline_boundary, NEWLINE};
use vstd::prelude::*;
use vstd::utf8::{
    encode_utf8, encode_utf8_first_scalar, encode_utf8_valid_utf8, is_char_boundary,
    is_char_boundary_iff_not_is_continuation_byte, is_char_boundary_start_end_of_seq,
    pop_first_scalar, valid_utf8, valid_utf8_concat, valid_utf8_split,
};

verus! {

/// True when a line of `text` starts at `offset`.
pub open spec fn is_line_start(text: Seq<u8>, offset: int) -> bool {
    offset == 0 || is_newline_boundary(text, offset)
}

/// The start of the line that follows the line holding `offset`: the position
/// behind the first newline at or after `offset`. `None` when no newline
/// follows.
pub open spec fn next_line_start(text: Seq<u8>, offset: int) -> Option<int>
    decreases text.len() - offset,
{
    if offset < 0 || offset >= text.len() {
        None
    } else if text[offset] == NEWLINE {
        Some(offset + 1)
    } else {
        next_line_start(text, offset + 1)
    }
}

/// The last line start before `offset`. `None` at the start of the text and
/// for offsets outside the text.
pub open spec fn prev_line_start(text: Seq<u8>, offset: int) -> Option<int>
    decreases offset,
{
    if offset <= 0 || offset > text.len() {
        None
    } else if is_line_start(text, offset - 1) {
        Some(offset - 1)
    } else {
        prev_line_start(text, offset - 1)
    }
}

/// The start of the line that lies `lines` lines below the line starting at
/// `from`. `None` when the text has fewer lines.
pub open spec fn line_start_from(text: Seq<u8>, from: int, lines: nat) -> Option<int>
    decreases lines,
{
    if lines == 0 {
        Some(from)
    } else {
        match line_start_from(text, from, (lines - 1) as nat) {
            Some(above) => next_line_start(text, above),
            None => None,
        }
    }
}

/// Where the line starting at `start` ends: at its newline, or at the end of
/// the text when no newline follows.
pub open spec fn line_end(text: Seq<u8>, start: int) -> int {
    match next_line_start(text, start) {
        Some(next) => next - 1,
        None => text.len() as int,
    }
}

/// The length in bytes of the line starting at `start`, without its newline.
pub open spec fn line_length(text: Seq<u8>, start: int) -> int {
    line_end(text, start) - start
}

/// `text` with `inserted` put in at `offset`.
pub open spec fn insert_at(text: Seq<u8>, offset: int, inserted: Seq<u8>) -> Seq<u8> {
    text.subrange(0, offset) + inserted + text.subrange(offset, text.len() as int)
}

/// `text` without the bytes from `start` up to `end`.
pub open spec fn remove_range(text: Seq<u8>, start: int, end: int) -> Seq<u8> {
    text.subrange(0, start) + text.subrange(end, text.len() as int)
}

/// What `next_line_start` finds: the newline just before the result is the
/// first one at or after `offset`.
pub proof fn lemma_next_line_start(text: Seq<u8>, offset: int)
    requires
        0 <= offset,
    ensures
        (match next_line_start(text, offset) {
            Some(next) => {
                &&& offset < next <= text.len()
                &&& text[next - 1] == NEWLINE
                &&& forall|i: int| offset <= i < next - 1 ==> text[i] != NEWLINE
            },
            None => forall|i: int| offset <= i < text.len() ==> text[i] != NEWLINE,
        }),
    decreases text.len() - offset,
{
    if offset < text.len() && text[offset] != NEWLINE {
        lemma_next_line_start(text, offset + 1);
    }
}

/// A position behind a newline with no newline between `offset` and that
/// newline is the next line start.
pub proof fn lemma_next_line_start_is(text: Seq<u8>, offset: int, next: int)
    requires
        0 <= offset < next <= text.len(),
        text[next - 1] == NEWLINE,
        forall|i: int| offset <= i < next - 1 ==> text[i] != NEWLINE,
    ensures
        next_line_start(text, offset) == Some(next),
    decreases next - offset,
{
    if text[offset] != NEWLINE {
        lemma_next_line_start_is(text, offset + 1, next);
    }
}

/// Without a newline at or after `offset` there is no next line start.
pub proof fn lemma_next_line_start_none(text: Seq<u8>, offset: int)
    requires
        forall|i: int| offset <= i < text.len() ==> text[i] != NEWLINE,
    ensures
        next_line_start(text, offset) is None,
    decreases text.len() - offset,
{
    if 0 <= offset < text.len() {
        lemma_next_line_start_none(text, offset + 1);
    }
}

/// A forward search in the rope from `pos` returns the next line start.
pub proof fn lemma_search_forward(text: Seq<u8>, pos: int, found: Option<usize>)
    requires
        0 <= pos,
        is_first_boundary_after(text, pos, found),
    ensures
        (match found {
            Some(b) => next_line_start(text, pos) == Some(b as int),
            None => next_line_start(text, pos) is None,
        }),
{
    match found {
        Some(b) => {
            assert forall|i: int| pos <= i < b - 1 implies text[i] != NEWLINE by {
                assert(!is_newline_boundary(text, i + 1));
            }
            lemma_next_line_start_is(text, pos, b as int);
        },
        None => {
            assert forall|i: int| pos <= i < text.len() implies text[i] != NEWLINE by {
                assert(!is_newline_boundary(text, i + 1));
            }
            lemma_next_line_start_none(text, pos);
        },
    }
}

/// What `prev_line_start` finds: the last line start before `offset`.
pub proof fn lemma_prev_line_start(text: Seq<u8>, offset: int)
    ensures
        (match prev_line_start(text, offset) {
            Some(prev) => {
                &&& 0 <= prev < offset <= text.len()
                &&& is_line_start(text, prev)
                &&& forall|j: int| prev < j < offset ==> !is_line_start(text, j)
            },
            None => offset <= 0 || offset > text.len(),
        }),
    decreases offset,
{
    if 0 < offset <= text.len() && !is_line_start(text, offset - 1) {
        lemma_prev_line_start(text, offset - 1);
    }
}

/// A line start before `offset` with no line start in between is the previous
/// line start.
pub proof fn lemma_prev_line_start_is(text: Seq<u8>, offset: int, prev: int)
    requires
        0 <= prev < offset <= text.len(),
        is_line_start(text, prev),
        forall|j: int| prev < j < offset ==> !is_line_start(text, j),
    ensures
        prev_line_start(text, offset) == Some(prev),
    decreases offset - prev,
{
    if prev < offset - 1 {
        lemma_prev_line_start_is(text, offset - 1, prev);
    }
}

/// A backward search in the rope from `pos` returns the previous line start,
/// but for the start of the text, which the rope does not report.
pub proof fn lemma_search_backward(text: Seq<u8>, pos: int, found: Option<usize>)
    requires
        0 < pos <= text.len(),
        is_last_boundary_before(text, pos, found),
    ensures
        (match found {
            Some(b) => prev_line_start(text, pos) == Some(b as int),
            None => prev_line_start(text, pos) == Some(0int),
        }),
{
    match found {
        Some(b) => {
            lemma_prev_line_start_is(text, pos, b as int);
        },
        None => {
            lemma_prev_line_start_is(text, pos, 0);
        },
    }
}

/// Walking down from a line start stays inside the text, moves forward with
/// every line, and ends on a line start.
pub proof fn lemma_line_start_from(text: Seq<u8>, from: int, lines: nat)
    requires
        0 <= from <= text.len(),
    ensures
        (match line_start_from(text, from, lines) {
            Some(start) => {
                &&& from + lines <= start <= text.len()
                &&& lines > 0 ==> is_newline_boundary(text, start)
            },
            None => lines > 0,
        }),
    decreases lines,
{
    if lines > 0 {
        lemma_line_start_from(text, from, (lines - 1) as nat);
        if let Some(above) = line_start_from(text, from, (lines - 1) as nat) {
            lemma_next_line_start(text, above);
        }
    }
}

/// Once a walk has run out of lines, it has run out for every greater count.
pub proof fn lemma_line_start_from_none(text: Seq<u8>, from: int, lines: nat, more: nat)
    requires
        line_start_from(text, from, lines) is None,
        lines <= more,
    ensures
        line_start_from(text, from, more) is None,
    decreases more,
{
    if lines < more {
        lemma_line_start_from_none(text, from, lines, (more - 1) as nat);
    }
}

/// A line ends inside the text, at or behind its start, and holds no newline.
pub proof fn lemma_line_end(text: Seq<u8>, start: int)
    requires
        0 <= start <= text.len(),
    ensures
        start <= line_end(text, start) <= text.len(),
        forall|i: int| start <= i < line_end(text, start) ==> text[i] != NEWLINE,
        line_end(text, start) < text.len() ==> text[line_end(text, start)] == NEWLINE,
{
    lemma_next_line_start(text, start);
}

/// In valid UTF-8 the position behind an ASCII byte is a character boundary.
pub proof fn lemma_boundary_behind_ascii(text: Seq<u8>, offset: int)
    requires
        valid_utf8(text),
        0 < offset <= text.len(),
        text[offset - 1] < 0x80,
    ensures
        is_char_boundary(text, offset),
{
    let len = text.len() as int;
    is_char_boundary_iff_not_is_continuation_byte(text, offset - 1);
    valid_utf8_split(text, offset - 1);
    let tail = text.subrange(offset - 1, len);
    let rest = text.subrange(offset, len);
    assert(pop_first_scalar(tail) =~= rest);
    assert(valid_utf8(rest));
    if offset == len {
        is_char_boundary_start_end_of_seq(text);
    } else {
        is_char_boundary_iff_not_is_continuation_byte(text, offset);
    }
}

/// In valid UTF-8 every line starts on a character boundary.
pub proof fn lemma_line_start_is_char_boundary(text: Seq<u8>, start: int)
    requires
        valid_utf8(text),
        is_line_start(text, start),
    ensures
        is_char_boundary(text, start),
{
    if start != 0 {
        lemma_boundary_behind_ascii(text, start);
    }
}

/// In valid UTF-8 every line ends on a character boundary.
pub proof fn lemma_line_end_is_char_boundary(text: Seq<u8>, start: int)
    requires
        valid_utf8(text),
        0 <= start <= text.len(),
    ensures
        is_char_boundary(text, line_end(text, start)),
{
    lemma_line_end(text, start);
    let end = line_end(text, start);
    if end == text.len() {
        is_char_boundary_start_end_of_seq(text);
    } else {
        is_char_boundary_iff_not_is_continuation_byte(text, end);
    }
}

/// The encoding of one character: one to four bytes of valid UTF-8, a single
/// byte exactly for an ASCII character, and free of newline bytes unless the
/// character is the newline itself.
pub proof fn lemma_encoded_char(c: char)
    ensures
        1 <= encode_utf8(seq![c]).len() <= 4,
        valid_utf8(encode_utf8(seq![c])),
        encode_utf8(seq![c]).len() == 1 <==> (c as u32) < 0x80,
        c == '\n' ==> encode_utf8(seq![c]) == seq![NEWLINE],
        c != '\n' ==> forall|i: int|
            0 <= i < encode_utf8(seq![c]).len() ==> encode_utf8(seq![c])[i] != NEWLINE,
{
    let chars = seq![c];
    let bytes = encode_utf8(chars);
    assert(encode_utf8(chars.drop_first()) =~= Seq::<u8>::empty());
    encode_utf8_first_scalar(chars);
    encode_utf8_valid_utf8(chars);
    let first = bytes[0];
    assert(first <= 0x7f ==> (first & 0x7f) as u32 == first as u32) by (bit_vector);
}

/// Putting valid UTF-8 into valid UTF-8 at a character boundary gives valid
/// UTF-8.
pub proof fn lemma_insert_at_valid(text: Seq<u8>, offset: int, inserted: Seq<u8>)
    requires
        valid_utf8(text),
        valid_utf8(inserted),
        is_char_boundary(text, offset),
    ensures
        valid_utf8(insert_at(text, offset, inserted)),
{
    valid_utf8_split(text, offset);
    valid_utf8_concat(text.subrange(0, offset), inserted);
    valid_utf8_concat(text.subrange(0, offset) + inserted, text.subrange(offset, text.len() as int));
}

/// Taking whole characters out of valid UTF-8 leaves valid UTF-8.
pub proof fn lemma_remove_range_valid(text: Seq<u8>, start: int, end: int)
    requires
        valid_utf8(text),
        is_char_boundary(text, start),
        is_char_boundary(text, end),
    ensures
        valid_utf8(remove_range(text, start, end)),
{
    valid_utf8_split(text, start);
    valid_utf8_split(text, end);
    valid_utf8_concat(text.subrange(0, start), text.subrange(end, text.len() as int));
}

/// A walk that ends at `start` in one text ends there in every text with the
/// same bytes before `start`.
pub proof fn lemma_line_start_from_same_prefix(
    text: Seq<u8>,
    other: Seq<u8>,
    from: int,
    lines: nat,
    start: int,
)
    requires
        0 <= from <= text.len(),
        line_start_from(text, from, lines) == Some(start),
        start <= other.len(),
        forall|i: int| 0 <= i < start ==> text[i] == other[i],
    ensures
        line_start_from(other, from, lines) == Some(start),
    decreases lines,
{
    if lines > 0 {
        let above = line_start_from(text, from, (lines - 1) as nat)->0;
        lemma_next_line_start(text, above);
        lemma_line_start_from_same_prefix(text, other, from, (lines - 1) as nat, above);
        lemma_next_line_start_is(other, above, start);
    }
}

/// Bytes without a newline, put into a line, make the line longer by their
/// number.
pub proof fn lemma_line_end_after_insert(
    text: Seq<u8>,
    start: int,
    offset: int,
    inserted: Seq<u8>,
)
    requires
        0 <= start <= offset <= line_end(text, start),
        start <= text.len(),
        forall|i: int| 0 <= i < inserted.len() ==> inserted[i] != NEWLINE,
    ensures
        line_end(insert_at(text, offset, inserted), start) == line_end(text, start)
            + inserted.len(),
{
    let end = line_end(text, start);
    let longer = insert_at(text, offset, inserted);
    lemma_line_end(text, start);
    assert forall|i: int| start <= i < end + inserted.len() implies longer[i] != NEWLINE by {}
    if end < text.len() {
        lemma_next_line_start_is(longer, start, end + inserted.len() + 1);
    } else {
        lemma_next_line_start_none(longer, start);
    }
}

} // verus!
