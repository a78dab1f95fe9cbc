use brewcode::buffer::Buffer;
use brewcode::input::{ElementState, Key, KeyboardInput, MouseButton};
use brewcode::location::{Location, Span};
use brewcode::view::{Position, Size};

fn open(content: &str) -> Buffer {
    Buffer::new(Size { width: 800, height: 600 }, "notes.txt".to_string(), content)
}

fn press(b: &mut Buffer, key: Key) {
    b.handle_keyboard_input(KeyboardInput { virtual_keycode: Some(key), state: ElementState::Pressed, shift: false });
}

fn lines(b: &Buffer) -> Vec<String> {
    (0..b.line_count()).map(|i| b.line_text(i)).collect()
}

fn at(row: usize, col: usize) -> Location {
    Location { row, col }
}

#[test]
fn right_at_line_end_wraps_and_left_returns() {
    let mut b = open("abc\nde");
    for _ in 0..3 {
        press(&mut b, Key::Right);
    }
    assert_eq!(b.cursor_location(), at(0, 3));
    press(&mut b, Key::Right);
    assert_eq!(b.cursor_location(), at(1, 0));
    press(&mut b, Key::Left);
    assert_eq!(b.cursor_location(), at(0, 3));
}

#[test]
fn typing_inserts_at_cursor() {
    let mut b = open("abc");
    press(&mut b, Key::Right);
    b.handle_char_input('X');
    assert_eq!(lines(&b), vec!["aXbc"]);
    assert_eq!(b.cursor_location(), at(0, 2));
    assert_eq!(b.col_affinity(), 2);
}

#[test]
fn backspace_at_row_start_joins_rows() {
    let mut b = open("abc\ndef");
    press(&mut b, Key::Down);
    assert_eq!(b.cursor_location(), at(1, 0));
    b.handle_char_input('\u{8}');
    assert_eq!(lines(&b), vec!["abcdef"]);
    assert_eq!(b.cursor_location(), at(0, 3));
}

#[test]
fn enter_splits_the_row() {
    let mut b = open("hello");
    press(&mut b, Key::Right);
    press(&mut b, Key::Right);
    b.handle_char_input('\n');
    assert_eq!(lines(&b), vec!["he", "llo"]);
    assert_eq!(b.cursor_location(), at(1, 0));
}

#[test]
fn carriage_return_splits_too() {
    let mut b = open("hello");
    press(&mut b, Key::Right);
    b.handle_char_input('\r');
    assert_eq!(lines(&b), vec!["h", "ello"]);
}

#[test]
fn save_after_load_gives_the_same_text() {
    for content in ["", "\n", "abc", "abc\n", "a\n\nb\n\n", "héllo wörld\n✓"] {
        let b = open(content);
        assert_eq!(b.save(), content);
    }
}

#[test]
fn loading_keeps_a_trailing_empty_line() {
    let b = open("one\ntwo\n");
    assert_eq!(lines(&b), vec!["one", "two", ""]);
    let e = open("");
    assert_eq!(e.line_count(), 1);
    assert_eq!(e.line_text(0), "");
}

#[test]
fn new_buffer_state() {
    let b = open("x\ny");
    assert_eq!(b.cursor_location(), at(0, 0));
    assert_eq!(b.selection(), None);
    assert_eq!(b.scroll_position(), 0);
    assert!(!b.is_dragging());
    assert_eq!(b.file_path(), "notes.txt");
    assert_eq!(b.viewport(), Size { width: 800, height: 600 });
}

#[test]
fn cursor_stays_in_bounds_through_edits() {
    let mut b = open("ab\n\ncdef\ng");
    let keys = [Key::Down, Key::Right, Key::Right, Key::Down, Key::Down, Key::Down, Key::Right, Key::Left,
        Key::Up, Key::Up, Key::Up, Key::Up, Key::Left, Key::Right, Key::Right, Key::Right, Key::Right];
    let chars = ['\u{8}', 'z', '\n', '\u{7f}', '\u{8}', '\u{8}', 'q', '\u{7f}'];
    for (i, key) in keys.iter().enumerate() {
        press(&mut b, *key);
        b.handle_char_input(chars[i % chars.len()]);
        let loc = b.cursor_location();
        assert!(loc.row < b.line_count());
        assert!(loc.col <= b.line_len(loc.row));
    }
}

#[test]
fn down_then_up_restores_location() {
    let mut b = open("abcdef\nxy\nlonger line");
    for _ in 0..5 {
        press(&mut b, Key::Right);
    }
    press(&mut b, Key::Down);
    assert_eq!(b.cursor_location(), at(1, 2));
    press(&mut b, Key::Up);
    assert_eq!(b.cursor_location(), at(0, 5));
}

#[test]
fn affinity_survives_short_rows() {
    let mut b = open("abcdef\nxy\nlonger line");
    for _ in 0..5 {
        press(&mut b, Key::Right);
    }
    press(&mut b, Key::Down);
    press(&mut b, Key::Down);
    assert_eq!(b.cursor_location(), at(2, 5));
    assert_eq!(b.col_affinity(), 5);
}

#[test]
fn up_on_first_row_reapplies_affinity() {
    let mut b = open("ab");
    press(&mut b, Key::Right);
    press(&mut b, Key::Up);
    assert_eq!(b.cursor_location(), at(0, 1));
}

#[test]
fn down_on_last_row_stays() {
    let mut b = open("ab\ncd");
    press(&mut b, Key::Down);
    press(&mut b, Key::Down);
    assert_eq!(b.cursor_location(), at(1, 0));
}

#[test]
fn left_at_start_and_right_at_end_do_nothing() {
    let mut b = open("ab");
    press(&mut b, Key::Left);
    assert_eq!(b.cursor_location(), at(0, 0));
    press(&mut b, Key::Right);
    press(&mut b, Key::Right);
    press(&mut b, Key::Right);
    assert_eq!(b.cursor_location(), at(0, 2));
}

#[test]
fn backspace_at_buffer_start_is_a_no_op() {
    let mut b = open("abc\nd");
    b.handle_char_input('\u{8}');
    assert_eq!(lines(&b), vec!["abc", "d"]);
    assert_eq!(b.cursor_location(), at(0, 0));
}

#[test]
fn delete_at_buffer_end_is_a_no_op() {
    let mut b = open("abc\nd");
    press(&mut b, Key::Down);
    press(&mut b, Key::Right);
    b.handle_char_input('\u{7f}');
    assert_eq!(lines(&b), vec!["abc", "d"]);
    assert_eq!(b.cursor_location(), at(1, 1));
}

#[test]
fn delete_removes_char_at_cursor() {
    let mut b = open("abc");
    press(&mut b, Key::Right);
    b.handle_char_input('\u{7f}');
    assert_eq!(lines(&b), vec!["ac"]);
    assert_eq!(b.cursor_location(), at(0, 1));
}

#[test]
fn delete_at_row_end_keeps_rows() {
    let mut b = open("ab\ncd");
    press(&mut b, Key::Right);
    press(&mut b, Key::Right);
    b.handle_char_input('\u{7f}');
    assert_eq!(lines(&b), vec!["ab", "cd"]);
}

#[test]
fn backspace_within_row() {
    let mut b = open("abc");
    press(&mut b, Key::Right);
    press(&mut b, Key::Right);
    b.handle_char_input('\u{8}');
    assert_eq!(lines(&b), vec!["ac"]);
    assert_eq!(b.cursor_location(), at(0, 1));
}

#[test]
fn tab_is_ignored() {
    let mut b = open("ab");
    b.handle_char_input('\t');
    assert_eq!(lines(&b), vec!["ab"]);
    assert_eq!(b.cursor_location(), at(0, 0));
}

#[test]
fn released_keys_do_nothing() {
    let mut b = open("ab");
    b.handle_keyboard_input(KeyboardInput { virtual_keycode: Some(Key::Right), state: ElementState::Released, shift: false });
    assert_eq!(b.cursor_location(), at(0, 0));
    b.handle_keyboard_input(KeyboardInput { virtual_keycode: None, state: ElementState::Pressed, shift: false });
    assert_eq!(b.cursor_location(), at(0, 0));
}

#[test]
fn typing_wide_characters() {
    let mut b = open("ü");
    press(&mut b, Key::Right);
    b.handle_char_input('ß');
    assert_eq!(lines(&b), vec!["üß"]);
    assert_eq!(b.save(), "üß");
}

#[test]
fn mouse_press_and_drag_select() {
    let mut b = open("hello\nworld");
    // gutter is 40 + 1 digit * 20 = 60 pixels
    b.handle_mouse_input(MouseButton::Left, ElementState::Pressed, Position { x: 79, y: 10 });
    assert_eq!(b.cursor_location(), at(0, 1));
    assert!(b.is_dragging());
    assert_eq!(b.selection(), Some(Span { start: at(0, 1), end: at(0, 1) }));
    b.handle_mouse_move(Position { x: 117, y: 45 });
    assert_eq!(b.cursor_location(), at(1, 3));
    assert_eq!(b.selection(), Some(Span { start: at(0, 1), end: at(1, 3) }));
    b.handle_mouse_input(MouseButton::Left, ElementState::Released, Position { x: 117, y: 45 });
    assert!(!b.is_dragging());
    b.handle_mouse_move(Position { x: 60, y: 10 });
    assert_eq!(b.cursor_location(), at(1, 3));
    assert_eq!(b.selection(), Some(Span { start: at(0, 1), end: at(1, 3) }));
}

#[test]
fn selection_is_the_same_both_ways() {
    let mut b = open("hello\nworld");
    b.handle_mouse_input(MouseButton::Left, ElementState::Pressed, Position { x: 117, y: 45 });
    b.handle_mouse_move(Position { x: 79, y: 10 });
    assert_eq!(b.selection(), Some(Span { start: at(0, 1), end: at(1, 3) }));
    assert_eq!(Span::new(at(1, 3), at(0, 1)), Span::new(at(0, 1), at(1, 3)));
}

#[test]
fn arrow_key_clears_selection() {
    let mut b = open("hello");
    b.handle_mouse_input(MouseButton::Left, ElementState::Pressed, Position { x: 79, y: 10 });
    b.handle_mouse_input(MouseButton::Left, ElementState::Released, Position { x: 79, y: 10 });
    press(&mut b, Key::Right);
    assert_eq!(b.selection(), None);
    assert_eq!(b.cursor_location(), at(0, 2));
}

#[test]
fn right_button_does_nothing() {
    let mut b = open("hello");
    b.handle_mouse_input(MouseButton::Right, ElementState::Pressed, Position { x: 117, y: 10 });
    assert_eq!(b.cursor_location(), at(0, 0));
    assert!(!b.is_dragging());
}

#[test]
fn hit_test_rounds_and_clamps() {
    let b = open("hello\nworld");
    assert_eq!(b.hit_test(Position { x: 98, y: 10 }), at(0, 2));
    assert_eq!(b.hit_test(Position { x: 0, y: 10 }), at(0, 0));
    assert_eq!(b.hit_test(Position { x: 5000, y: 41 }), at(1, 5));
    assert_eq!(b.hit_test(Position { x: 70, y: -30 }), at(0, 1));
    assert_eq!(b.hit_test(Position { x: 70, y: 500 }), at(1, 5));
}

#[test]
fn scroll_is_clamped() {
    let mut b = Buffer::new(Size { width: 800, height: 100 }, "f".to_string(), "a\nb\nc");
    // three rows of 40 pixels and 5 of padding, less 100 of viewport
    b.scroll(100);
    assert_eq!(b.scroll_position(), 25);
    b.scroll(-10);
    assert_eq!(b.scroll_position(), 15);
    b.scroll(-50);
    assert_eq!(b.scroll_position(), 0);
}

#[test]
fn short_buffer_does_not_scroll() {
    let mut b = open("a\nb");
    b.scroll(30);
    assert_eq!(b.scroll_position(), 0);
}

#[test]
fn moving_down_scrolls_cursor_into_view() {
    let content = "0\n1\n2\n3\n4\n5\n6\n7\n8\n9";
    let mut b = Buffer::new(Size { width: 800, height: 100 }, "f".to_string(), content);
    press(&mut b, Key::Down);
    assert_eq!(b.scroll_position(), 0);
    press(&mut b, Key::Down);
    press(&mut b, Key::Down);
    // row 3 spans 120..160: scroll to 160 + 5 - 100
    assert_eq!(b.scroll_position(), 65);
    press(&mut b, Key::Up);
    press(&mut b, Key::Up);
    press(&mut b, Key::Up);
    assert_eq!(b.scroll_position(), 0);
}

#[test]
fn shrinking_viewport_clamps_scroll() {
    let content = "0\n1\n2\n3\n4";
    let mut b = Buffer::new(Size { width: 800, height: 100 }, "f".to_string(), content);
    b.scroll(1000);
    assert_eq!(b.scroll_position(), 105);
    b.update_size(Size { width: 800, height: 150 });
    assert_eq!(b.scroll_position(), 55);
    assert_eq!(b.viewport(), Size { width: 800, height: 150 });
}

fn press_shifted(b: &mut Buffer, key: Key) {
    b.handle_keyboard_input(KeyboardInput { virtual_keycode: Some(key), state: ElementState::Pressed, shift: true });
}

#[test]
fn shift_arrows_extend_selection() {
    let mut b = open("hello\nworld");
    press(&mut b, Key::Right);
    press_shifted(&mut b, Key::Right);
    press_shifted(&mut b, Key::Down);
    assert_eq!(b.cursor_location(), at(1, 2));
    assert_eq!(b.selection(), Some(Span { start: at(0, 1), end: at(1, 2) }));
    press_shifted(&mut b, Key::Up);
    press_shifted(&mut b, Key::Left);
    press_shifted(&mut b, Key::Left);
    assert_eq!(b.cursor_location(), at(0, 0));
    assert_eq!(b.selection(), Some(Span { start: at(0, 0), end: at(0, 1) }));
    press(&mut b, Key::Right);
    assert_eq!(b.selection(), None);
}

#[test]
fn shift_with_other_key_keeps_state() {
    let mut b = open("hello");
    press_shifted(&mut b, Key::Other);
    assert_eq!(b.selection(), None);
    assert_eq!(b.cursor_location(), at(0, 0));
}
