//! The rope that holds the document, and what is taken on trust about it.
//!
//! The text lives in a rope of the `xi_rope` crate. Verus cannot look into
//! that crate, so this module is the whole of what the proofs assume about it:
//! a name for the characters a rope holds, and one wrapper for each rope
//! operation that the editor uses. Everything outside this module is proved
//! from these contracts.
//!
//! Offsets are byte offsets into the UTF-8 encoding of the text, as in `xi_rope`.

use std::borrow::Cow;
use vstd::prelude::*;
use vstd::utf8::{encode_utf8, is_char_boundary};
use xi_rope::{Cursor, LinesMetric, Rope};

verus! {

/// The byte that ends a line.
pub const NEWLINE: u8 = 0x0a;

/// A rope of `xi_rope`. Its inside is hidden from the verifier: verified code
/// only hands it to the wrappers of this module.
#[verifier::external_body]
pub struct RopeBuf {
    rope: Rope,
}

/// The characters that a rope holds, in order.
pub uninterp spec fn rope_chars(buf: RopeBuf) -> Seq<char>;

/// The bytes of a rope: the UTF-8 encoding of its characters.
pub open spec fn rope_bytes(buf: RopeBuf) -> Seq<u8> {
    encode_utf8(rope_chars(buf))
}

/// True when `offset` is a boundary of the rope's line metric: the position
/// just behind a newline byte. The start of the text is not such a boundary.
pub open spec fn is_newline_boundary(text: Seq<u8>, offset: int) -> bool {
    0 < offset <= text.len() && text[offset - 1] == NEWLINE
}

/// What a forward search from `pos` may return: the first boundary behind
/// `pos`, or nothing when no boundary lies behind `pos`.
pub open spec fn is_first_boundary_after(text: Seq<u8>, pos: int, found: Option<usize>) -> bool {
    match found {
        Some(b) => {
            &&& pos < b
            &&& is_newline_boundary(text, b as int)
            &&& forall|j: int| pos < j < b ==> !is_newline_boundary(text, j)
        },
        None => forall|j: int| pos < j ==> !is_newline_boundary(text, j),
    }
}

/// What a backward search from `pos` may return: the last boundary before
/// `pos`, or nothing when no boundary lies before `pos`.
pub open spec fn is_last_boundary_before(text: Seq<u8>, pos: int, found: Option<usize>) -> bool {
    match found {
        Some(b) => {
            &&& b < pos
            &&& is_newline_boundary(text, b as int)
            &&& forall|j: int| b < j < pos ==> !is_newline_boundary(text, j)
        },
        None => forall|j: int| j < pos ==> !is_newline_boundary(text, j),
    }
}

/// `Rope::from` on a string slice: the rope holds exactly the characters of
/// `text`.
#[verifier::external_body]
pub(crate) fn rope_from_str(text: &str) -> (buf: RopeBuf)
    ensures
        rope_chars(buf) == text@,
{
    RopeBuf { rope: Rope::from(text) }
}

/// `Node::len`: the length of the rope's text in bytes.
#[verifier::external_body]
pub(crate) fn rope_len(buf: &RopeBuf) -> (len: usize)
    ensures
        len == rope_bytes(*buf).len(),
{
    buf.rope.len()
}

/// `Rope::is_codepoint_boundary`: whether `offset` is the start or the end of
/// the text or the first byte of a character. An offset behind the end of the
/// text is no boundary.
#[verifier::external_body]
pub(crate) fn rope_is_char_boundary(buf: &RopeBuf, offset: usize) -> (on_boundary: bool)
    ensures
        on_boundary == is_char_boundary(rope_bytes(*buf), offset as int),
{
    buf.rope.is_codepoint_boundary(offset)
}

/// `Cursor::next` under `LinesMetric`, on a cursor created at `pos`: the first
/// line-metric boundary behind `pos`, if there is one. The call does not
/// change the rope.
#[verifier::external_body]
pub(crate) fn rope_next_line(buf: &RopeBuf, pos: usize) -> (found: Option<usize>)
    requires
        pos <= rope_bytes(*buf).len(),
    ensures
        is_first_boundary_after(rope_bytes(*buf), pos as int, found),
{
    Cursor::new(&buf.rope, pos).next::<LinesMetric>()
}

/// `Cursor::prev` under `LinesMetric`, on a cursor created at `pos`: the last
/// line-metric boundary before `pos`, if there is one. The start of the text
/// is never returned, since the metric does not count it as a boundary.
#[verifier::external_body]
pub(crate) fn rope_prev_line(buf: &RopeBuf, pos: usize) -> (found: Option<usize>)
    requires
        pos <= rope_bytes(*buf).len(),
    ensures
        is_last_boundary_before(rope_bytes(*buf), pos as int, found),
{
    Cursor::new(&buf.rope, pos).prev::<LinesMetric>()
}

/// `Rope::slice_to_cow`: the text between two character boundaries, borrowed
/// from the rope where it lies in one piece. Between other offsets the rope
/// would panic.
#[verifier::external_body]
pub(crate) fn rope_slice(buf: &RopeBuf, start: usize, end: usize) -> (text: Cow<'_, str>)
    requires
        start <= end,
        is_char_boundary(rope_bytes(*buf), start as int),
        is_char_boundary(rope_bytes(*buf), end as int),
    ensures
        encode_utf8(text@) == rope_bytes(*buf).subrange(start as int, end as int),
{
    buf.rope.slice_to_cow(start..end)
}

/// `Node::edit`: replaces the bytes from `start` up to `end` by `text`. Both
/// offsets must be character boundaries, or the rope would panic, and the new
/// length must fit the machine's word.
#[verifier::external_body]
pub(crate) fn rope_edit(buf: &mut RopeBuf, start: usize, end: usize, text: &str)
    requires
        start <= end,
        is_char_boundary(rope_bytes(*old(buf)), start as int),
        is_char_boundary(rope_bytes(*old(buf)), end as int),
        rope_bytes(*old(buf)).len() - (end - start) + encode_utf8(text@).len() <= usize::MAX,
    ensures
        rope_bytes(*final(buf)) == rope_bytes(*old(buf)).subrange(0, start as int) + encode_utf8(
            text@,
        ) + rope_bytes(*old(buf)).subrange(end as int, rope_bytes(*old(buf)).len() as int),
{
    buf.rope.edit(start..end, text)
}

/// `String::from` on a character: the string of that one character.
#[verifier::external_body]
pub(crate) fn char_to_string(c: char) -> (text: String)
    ensures
        text@ == seq![c],
{
    String::from(c)
}

} // verus!
