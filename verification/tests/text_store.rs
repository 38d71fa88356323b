use red::text_store::{InvalidOffset, TextStore};
use std::borrow::Cow;

fn whole(store: &TextStore) -> String {
    store.slice(0, store.len()).unwrap().into_owned()
}

/// The line starts of `text`, found by reading every byte.
fn line_starts(text: &str) -> Vec<usize> {
    let mut starts = vec![0];
    for (index, byte) in text.bytes().enumerate() {
        if byte == b'\n' {
            starts.push(index + 1);
        }
    }
    starts
}

fn expected_next(text: &str, offset: usize) -> Option<usize> {
    if offset >= text.len() {
        return None;
    }
    line_starts(text).into_iter().find(|&start| start > offset)
}

fn expected_prev(text: &str, offset: usize) -> Option<usize> {
    if offset == 0 || offset > text.len() {
        return None;
    }
    line_starts(text).into_iter().rev().find(|&start| start < offset)
}

/// A text of many lines, some of them longer than a leaf of the rope.
fn large_text() -> String {
    let mut text = String::new();
    for line in 0..400 {
        if line % 50 == 7 {
            for _ in 0..300 {
                text.push_str("wide é ");
            }
        }
        text.push_str(&format!("line {} of the text\n", line));
        if line % 9 == 0 {
            text.push('\n');
        }
    }
    text.push_str("the last line has no newline");
    text
}

#[test]
fn a_new_store_holds_the_text() {
    let store = TextStore::new("héllo\nwörld\n");
    assert_eq!(store.len(), 14);
    assert_eq!(whole(&store), "héllo\nwörld\n");
}

#[test]
fn an_empty_store_is_empty() {
    let store = TextStore::new("");
    assert_eq!(store.len(), 0);
    assert_eq!(whole(&store), "");
    assert_eq!(store.next_line_start(0), None);
    assert_eq!(store.prev_line_start(0), None);
    assert!(store.is_char_boundary(0));
    assert!(!store.is_char_boundary(1));
}

#[test]
fn char_boundaries_lie_between_characters() {
    let store = TextStore::new("héllo");
    assert!(store.is_char_boundary(0));
    assert!(store.is_char_boundary(1));
    assert!(!store.is_char_boundary(2));
    assert!(store.is_char_boundary(3));
    assert!(store.is_char_boundary(6));
    assert!(!store.is_char_boundary(7));
}

#[test]
fn slice_returns_the_bytes_between_two_boundaries() {
    let store = TextStore::new("héllo\nwörld\n");
    assert_eq!(store.slice(0, 0), Ok(Cow::from("")));
    assert_eq!(store.slice(1, 3), Ok(Cow::from("é")));
    assert_eq!(store.slice(7, 13), Ok(Cow::from("wörld")));
    assert_eq!(store.slice(14, 14), Ok(Cow::from("")));
}

#[test]
fn slice_refuses_offsets_that_are_no_boundaries() {
    let store = TextStore::new("héllo\n");
    assert_eq!(store.slice(2, 3), Err(InvalidOffset));
    assert_eq!(store.slice(0, 2), Err(InvalidOffset));
    assert_eq!(store.slice(3, 1), Err(InvalidOffset));
    assert_eq!(store.slice(0, 8), Err(InvalidOffset));
    assert_eq!(store.slice(8, 8), Err(InvalidOffset));
}

#[test]
fn insert_puts_text_in_at_the_offset() {
    let mut store = TextStore::new("held\n");
    assert_eq!(store.insert(3, "lo wor"), Ok(()));
    assert_eq!(whole(&store), "hello word\n");
    assert_eq!(store.insert(0, "¡"), Ok(()));
    assert_eq!(whole(&store), "¡hello word\n");
    assert_eq!(store.insert(store.len(), "end"), Ok(()));
    assert_eq!(whole(&store), "¡hello word\nend");
    assert_eq!(store.insert(4, ""), Ok(()));
    assert_eq!(whole(&store), "¡hello word\nend");
}

#[test]
fn insert_refuses_an_offset_inside_a_character() {
    let mut store = TextStore::new("¡hola!");
    assert_eq!(store.insert(1, "x"), Err(InvalidOffset));
    assert_eq!(whole(&store), "¡hola!");
    assert_eq!(store.insert(8, "x"), Err(InvalidOffset));
    assert_eq!(whole(&store), "¡hola!");
    assert_eq!(store.len(), 7);
}

#[test]
fn delete_takes_a_range_out() {
    let mut store = TextStore::new("héllo\nwörld\n");
    assert_eq!(store.delete(1, 3), Ok(()));
    assert_eq!(whole(&store), "hllo\nwörld\n");
    assert_eq!(store.delete(4, 5), Ok(()));
    assert_eq!(whole(&store), "hllowörld\n");
    assert_eq!(store.delete(2, 2), Ok(()));
    assert_eq!(whole(&store), "hllowörld\n");
    assert_eq!(store.delete(0, store.len()), Ok(()));
    assert_eq!(whole(&store), "");
    assert_eq!(store.len(), 0);
}

#[test]
fn delete_refuses_a_range_that_splits_a_character() {
    let mut store = TextStore::new("héllo");
    assert_eq!(store.delete(1, 2), Err(InvalidOffset));
    assert_eq!(store.delete(2, 3), Err(InvalidOffset));
    assert_eq!(store.delete(3, 1), Err(InvalidOffset));
    assert_eq!(store.delete(5, 7), Err(InvalidOffset));
    assert_eq!(whole(&store), "héllo");
}

#[test]
fn next_line_start_is_behind_the_next_newline() {
    let store = TextStore::new("ab\ncd\n");
    assert_eq!(store.next_line_start(0), Some(3));
    assert_eq!(store.next_line_start(1), Some(3));
    assert_eq!(store.next_line_start(2), Some(3));
    assert_eq!(store.next_line_start(3), Some(6));
    assert_eq!(store.next_line_start(5), Some(6));
    assert_eq!(store.next_line_start(6), None);
    assert_eq!(store.next_line_start(7), None);
}

#[test]
fn a_last_line_without_newline_has_no_next_line() {
    let store = TextStore::new("ab\ncd");
    assert_eq!(store.next_line_start(2), Some(3));
    assert_eq!(store.next_line_start(3), None);
    assert_eq!(store.next_line_start(4), None);
}

#[test]
fn prev_line_start_counts_the_start_of_the_text() {
    let store = TextStore::new("ab\ncd\n");
    assert_eq!(store.prev_line_start(0), None);
    assert_eq!(store.prev_line_start(1), Some(0));
    assert_eq!(store.prev_line_start(3), Some(0));
    assert_eq!(store.prev_line_start(4), Some(3));
    assert_eq!(store.prev_line_start(6), Some(3));
    assert_eq!(store.prev_line_start(7), None);
}

#[test]
fn a_line_cursor_steps_from_line_to_line() {
    let store = TextStore::new("one\ntwo\nthree");
    let mut cursor = store.line_start_cursor(0);
    assert_eq!(cursor.pos(), 0);
    assert_eq!(cursor.next(), Some(4));
    assert_eq!(cursor.pos(), 4);
    assert_eq!(cursor.next(), Some(8));
    assert_eq!(cursor.next(), None);
    assert_eq!(cursor.pos(), 8);
    assert_eq!(cursor.prev(), Some(4));
    assert_eq!(cursor.prev(), Some(0));
    assert_eq!(cursor.prev(), None);
    assert_eq!(cursor.pos(), 0);
}

#[test]
fn a_line_cursor_inside_a_line_goes_back_to_its_start() {
    let store = TextStore::new("one\ntwo\nthree");
    let mut cursor = store.line_start_cursor(6);
    assert_eq!(cursor.prev(), Some(4));
    let mut cursor = store.line_start_cursor(6);
    assert_eq!(cursor.next(), Some(8));
}

#[test]
fn a_large_store_holds_the_text() {
    let text = large_text();
    let store = TextStore::new(&text);
    assert_eq!(store.len(), text.len());
    assert_eq!(whole(&store), text);
}

#[test]
fn line_searches_agree_with_a_scan_on_a_large_text() {
    let text = large_text();
    let store = TextStore::new(&text);
    let starts = line_starts(&text);
    let mut offsets: Vec<usize> = Vec::new();
    for &start in &starts {
        offsets.push(start);
        if start > 0 {
            offsets.push(start - 1);
        }
        if start + 1 <= text.len() {
            offsets.push(start + 1);
        }
    }
    let mut offset = 0;
    while offset <= text.len() {
        offsets.push(offset);
        offset += 97;
    }
    offsets.push(text.len());
    for &offset in &offsets {
        assert_eq!(store.next_line_start(offset), expected_next(&text, offset), "next of {}", offset);
        assert_eq!(store.prev_line_start(offset), expected_prev(&text, offset), "prev of {}", offset);
    }
}

#[test]
fn char_boundaries_agree_with_the_string_on_a_large_text() {
    let text = large_text();
    let store = TextStore::new(&text);
    for offset in 0..text.len() + 3 {
        assert_eq!(store.is_char_boundary(offset), text.is_char_boundary(offset), "at {}", offset);
    }
}

#[test]
fn slices_agree_with_the_string_on_a_large_text() {
    let text = large_text();
    let store = TextStore::new(&text);
    let starts = line_starts(&text);
    for window in starts.windows(2) {
        assert_eq!(store.slice(window[0], window[1] - 1), Ok(Cow::from(&text[window[0]..window[1] - 1])));
    }
    let middle = starts[starts.len() / 2];
    assert_eq!(store.slice(middle, text.len()), Ok(Cow::from(&text[middle..])));
    assert_eq!(store.slice(0, middle), Ok(Cow::from(&text[..middle])));
}

#[test]
fn edits_agree_with_the_string_on_a_large_text() {
    let mut text = large_text();
    let mut store = TextStore::new(&text);
    let starts = line_starts(&text);
    let mut step = 0;
    for &start in starts.iter().rev() {
        step += 1;
        if step % 3 == 0 {
            assert_eq!(store.insert(start, "» put in\n"), Ok(()));
            text.insert_str(start, "» put in\n");
        } else if step % 3 == 1 && start + 4 <= text.len() && text.is_char_boundary(start + 4) {
            assert_eq!(store.delete(start, start + 4), Ok(()));
            text.replace_range(start..start + 4, "");
        }
    }
    assert_eq!(store.len(), text.len());
    assert_eq!(whole(&store), text);
    let starts = line_starts(&text);
    for &start in &starts {
        assert_eq!(store.next_line_start(start), expected_next(&text, start));
        assert_eq!(store.prev_line_start(start), expected_prev(&text, start));
    }
}

/// A small generator of numbers that looks random and is the same on every run.
struct Dice(u64);

impl Dice {
    fn roll(&mut self, sides: usize) -> usize {
        self.0 = self.0.wrapping_mul(6364136223846793005).wrapping_add(1442695040888963407);
        ((self.0 >> 33) % sides as u64) as usize
    }
}

#[test]
fn a_store_under_many_edits_agrees_with_a_string() {
    let pieces = ["a", "\n", "é", "some words", "\n\n", "日本語", "x\ny", "", "🙂", "tail\n"];
    let mut dice = Dice(23);
    let mut text = String::new();
    let mut store = TextStore::new("");
    for round in 0..1500 {
        let offset = dice.roll(text.len() + 2);
        if dice.roll(3) < 2 {
            let piece = pieces[dice.roll(pieces.len())];
            let wide = piece.repeat(1 + dice.roll(40));
            let done = store.insert(offset, &wide);
            if text.is_char_boundary(offset) {
                assert_eq!(done, Ok(()));
                text.insert_str(offset, &wide);
            } else {
                assert_eq!(done, Err(InvalidOffset));
            }
        } else {
            let end = offset + dice.roll(30);
            let done = store.delete(offset, end);
            if text.is_char_boundary(offset) && text.is_char_boundary(end) {
                assert_eq!(done, Ok(()));
                text.replace_range(offset..end, "");
            } else {
                assert_eq!(done, Err(InvalidOffset));
            }
        }
        assert_eq!(store.len(), text.len());
        let probe = dice.roll(text.len() + 2);
        assert_eq!(store.is_char_boundary(probe), text.is_char_boundary(probe));
        assert_eq!(store.next_line_start(probe), expected_next(&text, probe), "round {}", round);
        assert_eq!(store.prev_line_start(probe), expected_prev(&text, probe), "round {}", round);
        let other = probe + dice.roll(200);
        let slice = store.slice(probe, other);
        if text.is_char_boundary(probe) && text.is_char_boundary(other) {
            assert_eq!(slice, Ok(Cow::from(&text[probe..other])));
        } else {
            assert_eq!(slice, Err(InvalidOffset));
        }
    }
    assert!(text.len() > 4000);
    assert_eq!(whole(&store), text);
}
