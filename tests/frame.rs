use brewcode::buffer::Buffer;
use brewcode::draw::{DrawCommand, Fill};
use brewcode::editor::Editor;
use brewcode::input::{ElementState, Key, KeyboardInput, MouseButton};
use brewcode::location::{Location, Span};
use brewcode::text::{lines_of, string_of, text_of};
use brewcode::view::{count_digits, Position, Size};

#[test]
fn draw_commands_of_one_row() {
    let b = Buffer::new(Size { width: 800, height: 100 }, "f".to_string(), "ab");
    assert_eq!(
        b.draw_commands(),
        vec![
            DrawCommand::LineNumber { number: 1, x: 10, y: 0 },
            DrawCommand::Line { row: 0, x: 60, y: 0 },
            DrawCommand::Rect { x: 60, y: 0, width: 2, height: 40, fill: Fill::Cursor },
        ]
    );
}

#[test]
fn draw_commands_stop_below_viewport_and_start_at_scroll() {
    let content = "0\n1\n2\n3\n4\n5";
    let mut b = Buffer::new(Size { width: 800, height: 50 }, "f".to_string(), content);
    b.scroll(45);
    let cmds = b.draw_commands();
    // rows 1 (top at -5) and 2 (top at 35) show; row 3 starts at 75
    assert_eq!(
        cmds,
        vec![
            DrawCommand::LineNumber { number: 2, x: 10, y: -5 },
            DrawCommand::Line { row: 1, x: 60, y: -5 },
            DrawCommand::LineNumber { number: 3, x: 10, y: 35 },
            DrawCommand::Line { row: 2, x: 60, y: 35 },
        ]
    );
}

#[test]
fn draw_commands_mark_selection() {
    let mut b = Buffer::new(Size { width: 800, height: 100 }, "f".to_string(), "hello\nworld");
    b.handle_mouse_input(MouseButton::Left, ElementState::Pressed, Position { x: 79, y: 10 });
    b.handle_mouse_move(Position { x: 117, y: 45 });
    let cmds = b.draw_commands();
    assert_eq!(
        cmds,
        vec![
            // columns 1..5 of row 0: 19 to 95 pixels from the gutter
            DrawCommand::Rect { x: 79, y: 0, width: 76, height: 40, fill: Fill::Selection },
            DrawCommand::LineNumber { number: 1, x: 10, y: 0 },
            DrawCommand::Line { row: 0, x: 60, y: 0 },
            // columns 0..3 of row 1
            DrawCommand::Rect { x: 60, y: 40, width: 57, height: 40, fill: Fill::Selection },
            DrawCommand::LineNumber { number: 2, x: 10, y: 40 },
            DrawCommand::Line { row: 1, x: 60, y: 40 },
            DrawCommand::Rect { x: 117, y: 40, width: 2, height: 40, fill: Fill::Cursor },
        ]
    );
}

#[test]
fn gutter_grows_with_digit_count() {
    let content = "x\n".repeat(10);
    let b = Buffer::new(Size { width: 800, height: 30 }, "f".to_string(), &content);
    assert_eq!(b.line_count(), 11);
    assert_eq!(b.draw_commands()[1], DrawCommand::Line { row: 0, x: 80, y: 0 });
    // two digits: 40 + 2 * 20 = 80
    assert_eq!(b.hit_test(Position { x: 99, y: 0 }), Location { row: 0, col: 1 });
}

#[test]
fn digit_counts() {
    assert_eq!(count_digits(0), 1);
    assert_eq!(count_digits(9), 1);
    assert_eq!(count_digits(10), 2);
    assert_eq!(count_digits(999), 3);
    assert_eq!(count_digits(1000), 4);
    assert_eq!(count_digits(usize::MAX), 20);
}

#[test]
fn span_rows() {
    let one = Span::new(Location { row: 2, col: 4 }, Location { row: 2, col: 1 });
    assert_eq!(one.start, Location { row: 2, col: 1 });
    assert_eq!(one.get_char_indices_for_line(2, 9), Some((1, 4)));
    assert_eq!(one.get_char_indices_for_line(1, 9), None);
    let many = Span::new(Location { row: 4, col: 2 }, Location { row: 1, col: 3 });
    assert!(many.contains_line(1));
    assert!(many.contains_line(4));
    assert!(!many.contains_line(5));
    assert_eq!(many.get_char_indices_for_line(1, 7), Some((3, 7)));
    assert_eq!(many.get_char_indices_for_line(2, 6), Some((0, 6)));
    assert_eq!(many.get_char_indices_for_line(4, 8), Some((0, 2)));
    assert_eq!(many.get_char_indices_for_line(0, 8), None);
}

#[test]
fn text_conversions() {
    let lines = lines_of("ab\n\nc");
    assert_eq!(lines, vec![vec!['a', 'b'], vec![], vec!['c']]);
    assert_eq!(text_of(&lines), "ab\n\nc");
    assert_eq!(string_of(&vec!['x', 'ÿ']), "xÿ");
}

#[test]
fn editor_forwards_to_active_buffer() {
    let mut e = Editor::new(Size { width: 800, height: 600 }, "f.txt".to_string(), "abc");
    e.handle_keyboard_input(KeyboardInput { virtual_keycode: Some(Key::Right), state: ElementState::Pressed, shift: false });
    e.handle_char_input('X');
    assert_eq!(e.save(), "aXbc");
    assert_eq!(e.active_buffer().cursor_location(), Location { row: 0, col: 2 });
    e.handle_mouse_input(MouseButton::Left, ElementState::Pressed, Position { x: 60, y: 5 });
    e.handle_mouse_move(Position { x: 98, y: 5 });
    assert_eq!(
        e.active_buffer().selection(),
        Some(Span { start: Location { row: 0, col: 0 }, end: Location { row: 0, col: 2 } })
    );
}

#[test]
fn editor_resize_and_scroll() {
    let mut e = Editor::new(Size { width: 800, height: 100 }, "f.txt".to_string(), "a\nb\nc\nd");
    e.scroll(500);
    assert_eq!(e.active_buffer().scroll_position(), 65);
    e.update_size(Size { width: 640, height: 120 });
    assert_eq!(e.active_buffer().scroll_position(), 45);
    assert_eq!(e.active_buffer().viewport(), Size { width: 640, height: 120 });
}
