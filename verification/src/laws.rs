//! What holds of the editor whatever the user does.
//!
//! The lemmas here are stated over [`UserView`], the model that the
//! executable editor is proved against, so each of them holds of every run of
//! the editor.

use crate::lines::{
    is_line_start, lemma_boundary_behind_ascii, lemma_encoded_char, lemma_insert_at_valid,
    lemma_line_end, lemma_line_end_after_insert, lemma_line_start_from,
    lemma_line_start_from_same_prefix, lemma_next_line_start, lemma_next_line_start_is,
    lemma_prev_line_start, lemma_remove_range_valid, line_end, line_length, next_line_start,
    prev_line_start,
};
use crate::model::UserView;
use crate::state::Command;
use vstd::prelude::*;
use vstd::utf8::{encode_utf8, is_char_boundary, is_char_boundary_iff_not_is_continuation_byte};

verus! {

/// The cursor's line lies inside the document, at or below the anchor, and
/// the clamped column lies inside the line.
pub proof fn lemma_cursor_in_document(s: UserView)
    requires
        s.wf(),
    ensures
        (match s.line_start() {
            Some(start) => {
                &&& s.anchor + s.row <= start <= line_end(s.text, start) <= s.text.len()
                &&& is_line_start(s.text, start)
                &&& s.current_line_length() == Some(line_length(s.text, start))
                &&& 0 <= s.clamped_column() <= line_length(s.text, start)
                &&& s.clamped_column() <= s.column
                &&& s.cursor_offset() == Some(start + s.clamped_column())
            },
            None => s.clamped_column() == 0 && s.row > 0,
        }),
{
    lemma_line_start_from(s.text, s.anchor as int, s.row);
    if let Some(start) = s.line_start() {
        lemma_line_end(s.text, start);
    }
}

/// Scrolling keeps the state well formed: the anchor stays on a line start.
pub proof fn lemma_scroll_preserves_wf(s: UserView)
    requires
        s.wf(),
    ensures
        s.scroll_up().wf(),
        s.scroll_down().wf(),
{
    lemma_prev_line_start(s.text, s.anchor as int);
    lemma_next_line_start(s.text, s.anchor as int);
}

/// Every command keeps the state well formed. In particular the document
/// stays valid UTF-8, and the anchor stays on a line start.
pub proof fn lemma_apply_preserves_wf(s: UserView, command: Command)
    requires
        s.wf(),
    ensures
        s.apply(command).wf(),
{
    lemma_cursor_in_document(s);
    lemma_scroll_preserves_wf(s);
    if !s.rejects(command) {
        match command {
            Command::InsertCharacter(c) => {
                if let Some(offset) = s.cursor_offset() {
                    lemma_encoded_char(c);
                    lemma_insert_at_valid(s.text, offset, encode_utf8(seq![c]));
                }
            },
            Command::DeleteBackward => {
                if let Some(start) = s.line_start() {
                    if s.clamped_column() > 0 {
                        let offset = start + s.clamped_column();
                        lemma_remove_range_valid(s.text, offset - 1, offset);
                    } else if s.row > 0 {
                        lemma_merge_is_accepted(s);
                        lemma_remove_range_valid(s.text, start - 1, start);
                        let merged = s.delete_backward();
                        lemma_line_start_from(merged.text, merged.anchor as int, merged.row);
                        if let Some(above) = merged.line_start() {
                            lemma_line_end(merged.text, above);
                        }
                    }
                }
            },
            _ => {},
        }
    }
}

/// Joining the cursor's line to the line above takes out one whole character:
/// the newline between them. The document never refuses it.
pub proof fn lemma_merge_is_accepted(s: UserView)
    requires
        s.wf(),
        s.row > 0,
        s.line_start() is Some,
    ensures
        is_char_boundary(s.text, s.line_start()->0 - 1),
        is_char_boundary(s.text, s.line_start()->0),
        s.anchor < s.line_start()->0,
{
    let start = s.line_start()->0;
    lemma_line_start_from(s.text, s.anchor as int, s.row);
    lemma_boundary_behind_ascii(s.text, start);
    is_char_boundary_iff_not_is_continuation_byte(s.text, start - 1);
}

/// Every run of commands keeps the state well formed: after each of them the
/// anchor is the start of a line of the document.
pub proof fn lemma_run_preserves_wf(s: UserView, commands: Seq<Command>)
    requires
        s.wf(),
    ensures
        s.run(commands).wf(),
        is_line_start(s.run(commands).text, s.run(commands).anchor as int),
    decreases commands.len(),
{
    if commands.len() > 0 {
        lemma_run_preserves_wf(s, commands.drop_last());
        lemma_apply_preserves_wf(s.run(commands.drop_last()), commands.last());
    }
}

/// No command changes the size of the screen, only `Up` and `Down` move the
/// anchor, and only the two edits change the document.
pub proof fn lemma_commands_change_their_part(s: UserView, command: Command)
    ensures
        s.apply(command).width == s.width,
        s.apply(command).height == s.height,
        command != Command::Up && command != Command::Down ==> s.apply(command).anchor
            == s.anchor,
        !(command is InsertCharacter) && command != Command::DeleteBackward ==> s.apply(
            command,
        ).text == s.text,
{
}

/// After every step of every run of commands, runs of `Left` and `Right`
/// among them, the clamped column lies between 0 and the length of the
/// cursor's line.
pub proof fn lemma_clamped_column_stays_in_line(s: UserView, commands: Seq<Command>)
    requires
        s.wf(),
    ensures
        forall|steps: int|
            0 <= steps <= commands.len() ==> 0 <= (#[trigger] s.run(
                commands.take(steps),
            )).clamped_column() <= s.run(commands.take(steps)).clamp_target(),
{
    assert forall|steps: int| 0 <= steps <= commands.len() implies 0 <= (#[trigger] s.run(
        commands.take(steps),
    )).clamped_column() <= s.run(commands.take(steps)).clamp_target() by {
        lemma_run_preserves_wf(s, commands.take(steps));
        lemma_cursor_in_document(s.run(commands.take(steps)));
    }
}

/// `Left` and `Right` move nothing but the column, and leave it inside the
/// cursor's line.
pub proof fn lemma_left_right_move_the_column(s: UserView, command: Command)
    requires
        s.wf(),
        command == Command::Left || command == Command::Right,
    ensures
        s.apply(command) == (UserView { column: s.apply(command).column, ..s }),
        s.apply(command).column == s.apply(command).clamped_column(),
{
    lemma_apply_preserves_wf(s, command);
    lemma_cursor_in_document(s.apply(command));
}

/// Inserting a character and then going left brings the cursor back to the
/// offset at which it stood, whenever the document takes the character, the
/// character leaves the cursor's line whole, and the cursor comes to stand
/// just behind it: a newline only at the start of a line, and a character of
/// several bytes only where the column does not lie behind the end of the
/// line.
pub proof fn lemma_insert_then_left_returns(s: UserView, c: char)
    requires
        s.wf(),
        !s.rejects(Command::InsertCharacter(c)),
        c == '\n' ==> s.clamped_column() == 0,
        (c as u32) >= 0x80 && s.line_start() is Some ==> s.column == s.clamped_column(),
    ensures
        s.apply(Command::InsertCharacter(c)).apply(Command::Left).cursor_offset()
            == s.cursor_offset(),
{
    if let Some(start) = s.line_start() {
        let offset = start + s.clamped_column();
        let inserted = encode_utf8(seq![c]);
        let after = s.apply(Command::InsertCharacter(c));
        lemma_cursor_in_document(s);
        lemma_encoded_char(c);
        lemma_apply_preserves_wf(s, Command::InsertCharacter(c));
        lemma_line_start_from_same_prefix(s.text, after.text, s.anchor as int, s.row, start);
        if c != '\n' {
            lemma_line_end_after_insert(s.text, start, offset, inserted);
        }
    }
}

/// `Left` at the start of a line changes nothing, where the column itself is
/// 0.
pub proof fn lemma_left_at_line_start(s: UserView)
    requires
        s.wf(),
        s.clamped_column() == 0,
        s.column == s.clamped_column(),
    ensures
        s.apply(Command::Left) == s,
{
}

/// `Left` at the start of a line never moves the cursor: it only brings a
/// column that lay behind the end of an empty line back to 0.
pub proof fn lemma_left_at_line_start_keeps_cursor(s: UserView)
    requires
        s.wf(),
        s.clamped_column() == 0,
    ensures
        s.apply(Command::Left) == (UserView { column: 0, ..s }),
        s.apply(Command::Left).clamped_column() == s.clamped_column(),
        s.apply(Command::Left).cursor_offset() == s.cursor_offset(),
{
}

/// `Right` at the end of a line changes nothing, where the column itself is
/// the length of the line.
pub proof fn lemma_right_at_line_end(s: UserView)
    requires
        s.wf(),
        s.clamped_column() == s.clamp_target(),
        s.column == s.clamped_column(),
    ensures
        s.apply(Command::Right) == s,
{
}

/// `Right` at the end of a line never moves the cursor: it only brings a
/// column that lay behind the end of the line back to the end.
pub proof fn lemma_right_at_line_end_keeps_cursor(s: UserView)
    requires
        s.wf(),
        s.clamped_column() == s.clamp_target(),
    ensures
        s.apply(Command::Right) == (UserView { column: s.clamped_column() as nat, ..s }),
        s.apply(Command::Right).clamped_column() == s.clamped_column(),
        s.apply(Command::Right).cursor_offset() == s.cursor_offset(),
{
}

/// `Up` on the first row changes nothing when the document has no line above
/// the screen.
pub proof fn lemma_up_at_top(s: UserView)
    requires
        s.wf(),
        s.row == 0,
        prev_line_start(s.text, s.anchor as int) is None,
    ensures
        s.apply(Command::Up) == s,
{
}

/// The document has no line above the screen exactly when the anchor is at
/// its start.
pub proof fn lemma_no_line_above(s: UserView)
    requires
        s.wf(),
    ensures
        prev_line_start(s.text, s.anchor as int) is None <==> s.anchor == 0,
{
    lemma_prev_line_start(s.text, s.anchor as int);
}

/// `Down` changes nothing when the cursor's line is the last line of the
/// document, and when the document ends above the cursor.
pub proof fn lemma_down_at_bottom(s: UserView)
    requires
        s.wf(),
        (match s.line_start() {
            Some(start) => next_line_start(s.text, start) is None,
            None => true,
        }),
    ensures
        s.apply(Command::Down) == s,
{
}

} // verus!
