use red::state::{Command, User};
use red::text_store::InvalidOffset;
use std::borrow::Cow;

fn document(user: &User) -> String {
    user.slice_to_cow(0, user.len()).unwrap().into_owned()
}

fn apply(user: &mut User, commands: &[Command]) {
    for command in commands {
        user.handle_event(command).unwrap();
    }
}

#[test]
fn insert_puts_the_character_at_the_cursor() {
    let mut user = User::new((80, 24), "ac\n");
    apply(&mut user, &[Command::Right, Command::InsertCharacter('b')]);
    assert_eq!(document(&user), "abc\n");
    assert_eq!(user.cursor_screen_position(), (2, 0));
    assert_eq!(user.cursor_offset(), Some(2));
}

#[test]
fn insert_on_a_lower_row_finds_its_line() {
    let mut user = User::new((80, 24), "one\ntwo\nthree\n");
    apply(
        &mut user,
        &[Command::Down, Command::Down, Command::Right, Command::InsertCharacter('-')],
    );
    assert_eq!(document(&user), "one\ntwo\nt-hree\n");
    assert_eq!(user.cursor_screen_position(), (2, 2));
}

#[test]
fn insert_after_scrolling_counts_rows_from_the_anchor() {
    let mut user = User::new((80, 2), "one\ntwo\nthree\n");
    apply(&mut user, &[Command::Down, Command::Down, Command::InsertCharacter('>')]);
    assert_eq!(user.visible_range().0, 4);
    assert_eq!(document(&user), "one\ntwo\n>three\n");
    assert_eq!(user.cursor_screen_position(), (1, 1));
}

#[test]
fn insert_with_a_column_behind_the_line_end_appends_to_the_line() {
    let mut user = User::new((80, 24), "hello\nhi\n");
    apply(&mut user, &[Command::Right; 5]);
    apply(&mut user, &[Command::Down, Command::InsertCharacter('!')]);
    assert_eq!(document(&user), "hello\nhi!\n");
    assert_eq!(user.cursor_x(), 6);
    assert_eq!(user.cursor_screen_position(), (3, 1));
}

#[test]
fn insert_into_an_empty_document() {
    let mut user = User::new((80, 24), "");
    apply(&mut user, &[Command::InsertCharacter('a'), Command::InsertCharacter('b')]);
    assert_eq!(document(&user), "ab");
    assert_eq!(user.cursor_screen_position(), (2, 0));
}

#[test]
fn insert_a_newline_splits_the_line() {
    let mut user = User::new((80, 24), "abcd\n");
    apply(&mut user, &[Command::Right, Command::Right, Command::InsertCharacter('\n')]);
    assert_eq!(document(&user), "ab\ncd\n");
    assert_eq!(user.cursor_x(), 3);
    assert_eq!(user.cursor_y(), 0);
    assert_eq!(user.cursor_screen_position(), (2, 0));
}

#[test]
fn insert_a_character_of_several_bytes() {
    let mut user = User::new((80, 24), "ab\n");
    apply(&mut user, &[Command::Right, Command::Right, Command::InsertCharacter('é')]);
    assert_eq!(document(&user), "abé\n");
    assert_eq!(user.len(), 5);
    assert_eq!(user.cursor_x(), 3);
    assert_eq!(user.current_line_length(), Some(4));
}

#[test]
fn insert_inside_a_character_is_refused() {
    let mut user = User::new((80, 24), "é\n");
    apply(&mut user, &[Command::Right]);
    assert_eq!(user.cursor_offset(), Some(1));
    assert_eq!(user.handle_event(&Command::InsertCharacter('x')), Err(InvalidOffset));
    assert_eq!(document(&user), "é\n");
    assert_eq!(user.cursor_x(), 1);
    assert_eq!(user.cursor_y(), 0);

    apply(&mut user, &[Command::Right, Command::InsertCharacter('x')]);
    assert_eq!(document(&user), "éx\n");
    assert_eq!(user.cursor_x(), 3);
}

#[test]
fn delete_backward_takes_the_byte_before_the_cursor() {
    let mut user = User::new((80, 24), "abc\n");
    apply(&mut user, &[Command::Right, Command::Right, Command::DeleteBackward]);
    assert_eq!(document(&user), "ac\n");
    assert_eq!(user.cursor_screen_position(), (1, 0));
}

#[test]
fn delete_backward_with_a_column_behind_the_line_end() {
    let mut user = User::new((80, 24), "hello\nhi\n");
    apply(&mut user, &[Command::Right; 5]);
    apply(&mut user, &[Command::Down, Command::DeleteBackward]);
    assert_eq!(document(&user), "hello\nh\n");
    assert_eq!(user.cursor_x(), 4);
    assert_eq!(user.cursor_screen_position(), (1, 1));
}

#[test]
fn delete_backward_at_the_start_of_a_line_joins_it_to_the_line_above() {
    let mut user = User::new((80, 24), "ab\ncd\nef\n");
    apply(&mut user, &[Command::Down, Command::DeleteBackward]);
    assert_eq!(document(&user), "abcd\nef\n");
    assert_eq!(user.cursor_y(), 0);
    assert_eq!(user.cursor_x(), 4);
    assert_eq!(user.cursor_screen_position(), (4, 0));
}

#[test]
fn delete_backward_joins_an_empty_line() {
    let mut user = User::new((80, 24), "ab\n\ncd\n");
    apply(&mut user, &[Command::Down, Command::DeleteBackward]);
    assert_eq!(document(&user), "ab\ncd\n");
    assert_eq!(user.cursor_screen_position(), (2, 0));
}

#[test]
fn delete_backward_on_an_empty_line_ignores_a_column_left_behind() {
    let mut user = User::new((80, 24), "abc\n\n");
    apply(&mut user, &[Command::Right, Command::Right, Command::Down]);
    assert_eq!(user.cursor_x(), 2);
    assert_eq!(user.clamped_column(), 0);
    apply(&mut user, &[Command::DeleteBackward]);
    assert_eq!(document(&user), "abc\n");
    assert_eq!(user.cursor_screen_position(), (3, 0));
}

#[test]
fn delete_backward_on_the_first_row_does_not_join_above_the_screen() {
    let mut user = User::new((80, 1), "ab\ncd\n");
    apply(&mut user, &[Command::Down]);
    assert_eq!(user.visible_range().0, 3);
    assert_eq!(user.cursor_y(), 0);
    apply(&mut user, &[Command::DeleteBackward]);
    assert_eq!(document(&user), "ab\ncd\n");
    assert_eq!(user.visible_range().0, 3);
    assert_eq!(user.cursor_screen_position(), (0, 0));
}

#[test]
fn delete_backward_of_a_part_of_a_character_is_refused() {
    let mut user = User::new((80, 24), "é!\n");
    apply(&mut user, &[Command::Right, Command::Right]);
    assert_eq!(user.cursor_offset(), Some(2));
    assert_eq!(user.handle_event(&Command::DeleteBackward), Err(InvalidOffset));
    assert_eq!(document(&user), "é!\n");
    assert_eq!(user.cursor_x(), 2);

    apply(&mut user, &[Command::Left]);
    assert_eq!(user.handle_event(&Command::DeleteBackward), Err(InvalidOffset));
    assert_eq!(document(&user), "é!\n");

    apply(&mut user, &[Command::Right, Command::Right, Command::DeleteBackward]);
    assert_eq!(document(&user), "é\n");
    assert_eq!(user.cursor_x(), 2);
}

#[test]
fn delete_backward_on_the_last_line_without_newline() {
    let mut user = User::new((80, 24), "ab\ncd");
    apply(&mut user, &[Command::Down, Command::Right, Command::Right, Command::DeleteBackward]);
    assert_eq!(document(&user), "ab\nc");
    assert_eq!(user.cursor_screen_position(), (1, 1));
    apply(&mut user, &[Command::DeleteBackward, Command::DeleteBackward]);
    assert_eq!(document(&user), "ab");
    assert_eq!(user.cursor_screen_position(), (2, 0));
}

#[test]
fn typing_and_deleting_a_word() {
    let mut user = User::new((80, 24), "\n");
    for c in "text".chars() {
        apply(&mut user, &[Command::InsertCharacter(c)]);
    }
    assert_eq!(document(&user), "text\n");
    assert_eq!(user.cursor_screen_position(), (4, 0));
    apply(&mut user, &[Command::DeleteBackward; 4]);
    assert_eq!(document(&user), "\n");
    assert_eq!(user.cursor_screen_position(), (0, 0));
    apply(&mut user, &[Command::DeleteBackward]);
    assert_eq!(document(&user), "\n");
}

#[test]
fn editing_a_large_document() {
    let mut text = String::new();
    for line in 0..3000 {
        text.push_str(&format!("this is line number {}\n", line));
    }
    let mut user = User::new((80, 40), &text);
    apply(&mut user, &[Command::JumpToBottom]);
    apply(&mut user, &[Command::Down; 1500]);
    assert_eq!(user.cursor_y(), 39);
    let (anchor, _) = user.visible_range();
    assert!(text[..anchor].ends_with("line number 1499\n"));
    let lines = user.visible_lines();
    assert_eq!(lines.len(), 40);
    assert_eq!(lines[0], (0, Cow::from("this is line number 1500")));
    assert_eq!(lines[39], (39, Cow::from("this is line number 1539")));

    apply(&mut user, &[Command::Right; 4]);
    apply(&mut user, &[Command::InsertCharacter('!'), Command::InsertCharacter('?')]);
    let offset = text.find("this is line number 1539\n").unwrap() + 4;
    text.insert_str(offset, "!?");
    assert_eq!(document(&user), text);
    assert_eq!(user.cursor_offset(), Some(offset + 2));

    apply(&mut user, &[Command::Up; 45]);
    assert_eq!(user.cursor_y(), 0);
    assert_eq!(user.visible_lines()[0], (0, Cow::from("this is line number 1494")));
}
