//! A text buffer: its lines, its cursor and selection, and the scroll
//! offset of the viewport onto it.
use vstd::prelude::*;
use crate::location::{Location, Span};
use crate::cursor::{Cursor, selection_of};
use crate::edit::{
    cursor_wf, lines_fit, in_bounds, col_toward, moved_up, moved_down, moved_left, moved_right, inserted_text,
    inserted_cursor, split_text, split_cursor, backspaced_text, backspaced_cursor, deleted_text,
    deleted_cursor, char_text, char_cursor,
};
use crate::text::{split_lines, join_lines, lines_of, text_of, string_of, lemma_split_lines_shape};
use crate::input::{ElementState, Key, KeyboardInput, MouseButton};
use crate::view::{
    Size, Position, LINE_HEIGHT, SCROLL_PADDING, GLYPH_ADVANCE_MILLI, GUTTER_BASE, GUTTER_DIGIT,
    max_scroll, clamp, scroll_after, count_digits, hit_location,
};

verus! {

/// A buffer of text lines read from a file, with a cursor, an optional
/// selection, and a scroll offset.
pub struct Buffer {
    lines: Vec<Vec<char>>,
    scroll: u128,
    cursor: Cursor,
    dragging: bool,
    size: Size,
    path: String,
}

impl Buffer {
    /// The lines of the buffer.
    pub closed spec fn text(&self) -> Seq<Seq<char>> {
        self.lines@.map_values(|l: Vec<char>| l@)
    }

    /// The cursor.
    pub closed spec fn cursor(&self) -> Cursor {
        self.cursor
    }

    /// The scroll offset, in pixels from the top of the first row.
    pub closed spec fn scroll_offset(&self) -> int {
        self.scroll as int
    }

    /// Whether a mouse drag is extending the selection.
    pub closed spec fn dragging(&self) -> bool {
        self.dragging
    }

    /// The size of the viewport.
    pub closed spec fn size(&self) -> Size {
        self.size
    }

    /// The path of the file that the buffer was read from.
    pub closed spec fn path(&self) -> Seq<char> {
        self.path@
    }

    /// The lines of a buffer fit in memory.
    proof fn lemma_text_fits(&self)
        ensures
            lines_fit(self.text()),
    {
        assert forall|i: int| 0 <= i < self.text().len() implies #[trigger] self.text()[i].len() <= usize::MAX by {
            vstd::std_specs::vec::axiom_spec_len(&self.lines@[i]);
        }
        vstd::std_specs::vec::axiom_spec_len(&self.lines);
    }

    /// The buffer's invariant: a well-formed cursor on its lines, and a
    /// scroll offset within the scroll range.
    pub open spec fn wf(&self) -> bool {
        &&& cursor_wf(self.text(), self.cursor())
        &&& 0 <= self.scroll_offset() <= max_scroll(self.text().len() as int, self.size().height as int)
    }

    /// A buffer holding `content`, the text of the file at `file_name`,
    /// split into lines at each `'\n'`, with the cursor at its start,
    /// nothing selected and no scroll.
    pub fn new(size: Size, file_name: String, content: &str) -> (r: Buffer)
        ensures
            r.wf(),
            r.text() == split_lines(content@),
            r.cursor() == (Cursor { location: Location { row: 0, col: 0 }, col_affinity: 0, selection_start: None }),
            r.scroll_offset() == 0,
            !r.dragging(),
            r.size() == size,
            r.path() == file_name@,
    {
        let lines = lines_of(content);
        proof {
            lemma_split_lines_shape(content@);
        }
        let b = Buffer { lines, scroll: 0, cursor: Cursor::new(), dragging: false, size, path: file_name };
        proof {
            b.lemma_text_fits();
        }
        b
    }

    /// The text to write back to the file: the lines joined with `'\n'`.
    pub fn save(&self) -> (r: String)
        ensures
            r@ == join_lines(self.text()),
    {
        text_of(&self.lines)
    }

    /// The number of lines.
    pub fn line_count(&self) -> (r: usize)
        ensures
            r == self.text().len(),
    {
        self.lines.len()
    }

    /// The text of row `row`.
    pub fn line_text(&self, row: usize) -> (r: String)
        requires
            row < self.text().len(),
        ensures
            r@ == self.text()[row as int],
    {
        string_of(&self.lines[row])
    }

    /// The length of row `row`, in characters.
    pub fn line_len(&self, row: usize) -> (r: usize)
        requires
            row < self.text().len(),
        ensures
            r == self.text()[row as int].len(),
    {
        self.lines[row].len()
    }

    /// Where the cursor stands.
    pub fn cursor_location(&self) -> (r: Location)
        ensures
            r == self.cursor().location,
    {
        self.cursor.location
    }

    /// The column that the cursor keeps across vertical moves.
    pub fn col_affinity(&self) -> (r: usize)
        ensures
            r == self.cursor().col_affinity,
    {
        self.cursor.col_affinity
    }

    /// The selected span, or `None` when nothing is selected.
    pub fn selection(&self) -> (r: Option<Span>)
        ensures
            r == selection_of(self.cursor()),
    {
        self.cursor.selection_span()
    }

    /// The scroll offset, in pixels.
    pub fn scroll_position(&self) -> (r: u128)
        ensures
            r == self.scroll_offset(),
    {
        self.scroll
    }

    /// Whether a mouse drag is extending the selection.
    pub fn is_dragging(&self) -> (r: bool)
        ensures
            r == self.dragging(),
    {
        self.dragging
    }

    /// The size of the viewport.
    pub fn viewport(&self) -> (r: Size)
        ensures
            r == self.size(),
    {
        self.size
    }

    /// The path of the file that the buffer was read from.
    pub fn file_path(&self) -> (r: &String)
        ensures
            r@ == self.path(),
    {
        &self.path
    }

    /// The largest scroll offset for the current lines and viewport.
    fn max_scroll_value(&self) -> (r: u128)
        ensures
            r == max_scroll(self.text().len() as int, self.size().height as int),
    {
        let content = (self.lines.len() as u128) * (LINE_HEIGHT as u128) + SCROLL_PADDING as u128;
        let h = self.size.height as u128;
        if content > h {
            content - h
        } else {
            0
        }
    }

    /// Scrolls so that the cursor's row shows, within the scroll range.
    fn ensure_cursor_in_view(&mut self)
        ensures
            final(self).scroll_offset() == scroll_after(
                old(self).scroll_offset(),
                old(self).cursor().location.row as int,
                old(self).text().len() as int,
                old(self).size().height as int,
            ),
            final(self).text() == old(self).text(),
            final(self).cursor() == old(self).cursor(),
            final(self).dragging() == old(self).dragging(),
            final(self).size() == old(self).size(),
            final(self).path() == old(self).path(),
    {
        let lh = LINE_HEIGHT as u128;
        let y = (self.cursor.location.row as u128) * lh;
        let h = self.size.height as u128;
        let m = self.max_scroll_value();
        let s = if y < self.scroll {
            y
        } else if y + lh > self.scroll + h {
            y + lh + SCROLL_PADDING as u128 - h
        } else {
            self.scroll
        };
        let s = if s > m { m } else { s };
        self.scroll = s;
    }

    /// Types `ch` at the cursor.
    fn insert_char(&mut self, ch: char)
        requires
            old(self).wf(),
        ensures
            final(self).text() == inserted_text(old(self).text(), old(self).cursor().location, ch),
            final(self).cursor() == inserted_cursor(old(self).cursor()),
            final(self).scroll_offset() == old(self).scroll_offset(),
            final(self).dragging() == old(self).dragging(),
            final(self).size() == old(self).size(),
            final(self).path() == old(self).path(),
    {
        let row = self.cursor.location.row;
        let col = self.cursor.location.col;
        self.lines[row].insert(col, ch);
        let new_len = self.lines[row].len();
        assert(col < new_len);
        self.cursor.set_col_with_affinity(col + 1);
        self.cursor.selection_start = None;
        proof {
            assert(self.text() =~= inserted_text(old(self).text(), old(self).cursor().location, ch));
        }
    }

    /// Splits the cursor's row at the cursor.
    fn split_line(&mut self)
        requires
            old(self).wf(),
        ensures
            final(self).text() == split_text(old(self).text(), old(self).cursor().location),
            final(self).cursor() == split_cursor(old(self).cursor()),
            final(self).scroll_offset() == old(self).scroll_offset(),
            final(self).dragging() == old(self).dragging(),
            final(self).size() == old(self).size(),
            final(self).path() == old(self).path(),
    {
        let row = self.cursor.location.row;
        let col = self.cursor.location.col;
        let rest = self.lines[row].split_off(col);
        let n = self.lines.len();
        assert(row < n);
        self.lines.insert(row + 1, rest);
        let n = self.lines.len();
        assert(row + 1 < n);
        self.cursor.set_row(row + 1);
        self.cursor.set_col_with_affinity(0);
        self.cursor.selection_start = None;
        proof {
            let t = old(self).text();
            let line = t[row as int];
            assert(line.subrange(0, col as int) =~= line.take(col as int));
            assert(line.subrange(col as int, line.len() as int) =~= line.skip(col as int));
            assert(self.text() =~= split_text(t, old(self).cursor().location));
        }
    }

    /// Deletes the character before the cursor, or joins the cursor's row
    /// to the previous one from the row's start.
    fn backspace(&mut self)
        requires
            old(self).wf(),
        ensures
            final(self).text() == backspaced_text(old(self).text(), old(self).cursor().location),
            final(self).cursor() == backspaced_cursor(old(self).text(), old(self).cursor()),
            final(self).scroll_offset() == old(self).scroll_offset(),
            final(self).dragging() == old(self).dragging(),
            final(self).size() == old(self).size(),
            final(self).path() == old(self).path(),
    {
        let row = self.cursor.location.row;
        let col = self.cursor.location.col;
        if col > 0 {
            self.lines[row].remove(col - 1);
            self.cursor.set_col_with_affinity(col - 1);
            self.cursor.selection_start = None;
            proof {
                assert(self.text() =~= backspaced_text(old(self).text(), old(self).cursor().location));
            }
        } else if row > 0 {
            let mut remaining = self.lines.remove(row);
            let prev_len = self.lines[row - 1].len();
            self.lines[row - 1].append(&mut remaining);
            self.cursor.set_row(row - 1);
            self.cursor.set_col_with_affinity(prev_len);
            self.cursor.selection_start = None;
            proof {
                assert(self.text() =~= backspaced_text(old(self).text(), old(self).cursor().location));
            }
        }
    }

    /// Deletes the character at the cursor, if the row goes on after it.
    fn delete_forward(&mut self)
        requires
            old(self).wf(),
        ensures
            final(self).text() == deleted_text(old(self).text(), old(self).cursor().location),
            final(self).cursor() == deleted_cursor(old(self).text(), old(self).cursor()),
            final(self).scroll_offset() == old(self).scroll_offset(),
            final(self).dragging() == old(self).dragging(),
            final(self).size() == old(self).size(),
            final(self).path() == old(self).path(),
    {
        let row = self.cursor.location.row;
        let col = self.cursor.location.col;
        if col < self.lines[row].len() {
            self.lines[row].remove(col);
            self.cursor.selection_start = None;
            proof {
                assert(self.text() =~= deleted_text(old(self).text(), old(self).cursor().location));
            }
        }
    }

    /// The column that the cursor takes on row `row` when it remembers
    /// column `affinity`.
    fn col_toward_on(&self, row: usize, affinity: usize) -> (r: usize)
        requires
            row < self.text().len(),
        ensures
            r == col_toward(self.text(), row as int, affinity),
    {
        let len = self.lines[row].len();
        if affinity <= len {
            affinity
        } else {
            len
        }
    }

    /// Moves the cursor for a press of `key`, with Shift held if `extend`.
    fn move_cursor(&mut self, key: Key, extend: bool)
        requires
            old(self).wf(),
        ensures
            final(self).cursor() == key_cursor(old(self).text(), old(self).cursor(), key, extend),
            final(self).text() == old(self).text(),
            final(self).scroll_offset() == old(self).scroll_offset(),
            final(self).dragging() == old(self).dragging(),
            final(self).size() == old(self).size(),
            final(self).path() == old(self).path(),
    {
        let row = self.cursor.location.row;
        let col = self.cursor.location.col;
        let n = self.lines.len();
        let anchor = match self.cursor.selection_start {
            Some(a) => a,
            None => self.cursor.location,
        };
        match key {
            Key::Up => {
                self.cursor.selection_start = None;
                let new_row = if row == 0 { 0 } else { row - 1 };
                let new_col = self.col_toward_on(new_row, self.cursor.col_affinity);
                self.cursor.set_row(new_row);
                self.cursor.set_col(new_col);
            },
            Key::Down => {
                self.cursor.selection_start = None;
                let new_row = if row < n - 1 { row + 1 } else { row };
                let new_col = self.col_toward_on(new_row, self.cursor.col_affinity);
                self.cursor.set_row(new_row);
                self.cursor.set_col(new_col);
            },
            Key::Left => {
                self.cursor.selection_start = None;
                if col == 0 {
                    if row > 0 {
                        self.cursor.set_row(row - 1);
                        let len = self.lines[row - 1].len();
                        self.cursor.set_col_with_affinity(len);
                    }
                } else {
                    self.cursor.set_col_with_affinity(col - 1);
                }
            },
            Key::Right => {
                self.cursor.selection_start = None;
                if col >= self.lines[row].len() {
                    if row < n - 1 {
                        self.cursor.set_row(row + 1);
                        self.cursor.set_col_with_affinity(0);
                    }
                } else {
                    self.cursor.set_col_with_affinity(col + 1);
                }
            },
            Key::Other => {},
        }
        if extend && key != Key::Other {
            self.cursor.selection_start = Some(anchor);
        }
    }

    /// The location under the pointer at `position`.
    pub fn hit_test(&self, position: Position) -> (r: Location)
        requires
            self.wf(),
        ensures
            r == hit_location(self.text(), self.scroll_offset(), position),
            in_bounds(self.text(), r),
    {
        let n = self.lines.len();
        let digits = count_digits(n);
        let gutter = GUTTER_BASE as i128 + (digits as i128) * (GUTTER_DIGIT as i128);
        let x = position.x as i128 - gutter;
        let ax: i128 = if x < 0 { 0 } else { x };
        let ay: i128 = position.y as i128 + self.scroll as i128;
        let row: i128 = if ay < 0 { 0 } else { ay / (LINE_HEIGHT as i128) };
        if row >= n as i128 {
            Location { row: n - 1, col: self.lines[n - 1].len() }
        } else {
            let row = row as usize;
            let col = (ax * 1000 + (GLYPH_ADVANCE_MILLI / 2) as i128) / (GLYPH_ADVANCE_MILLI as i128);
            let len = self.lines[row].len();
            let col = if col <= len as i128 { col as usize } else { len };
            Location { row, col }
        }
    }

    /// Reacts to a mouse button: pressing the left button puts the cursor
    /// and the selection anchor under the pointer and starts a drag;
    /// releasing it ends the drag and keeps the selection. Other buttons do
    /// nothing.
    pub fn handle_mouse_input(&mut self, button: MouseButton, state: ElementState, position: Position)
        requires
            old(self).wf(),
        ensures
            final(self).wf(),
            mouse_input_post(*old(self), *final(self), button, state, position),
    {
        if button == MouseButton::Left {
            if state == ElementState::Pressed {
                let location = self.hit_test(position);
                self.cursor.set_row(location.row);
                self.cursor.set_col_with_affinity(location.col);
                self.cursor.selection_start = Some(location);
                self.dragging = true;
            } else {
                self.dragging = false;
            }
        }
    }

    /// Reacts to the pointer moving to `position`: during a drag the cursor
    /// follows the pointer while the anchor stays (it is set at the cursor
    /// if missing); otherwise nothing happens.
    pub fn handle_mouse_move(&mut self, position: Position)
        requires
            old(self).wf(),
        ensures
            final(self).wf(),
            mouse_move_post(*old(self), *final(self), position),
    {
        if self.dragging {
            if self.cursor.selection_start.is_none() {
                self.cursor.selection_start = Some(self.cursor.location);
            }
            let location = self.hit_test(position);
            self.cursor.set_row(location.row);
            self.cursor.set_col_with_affinity(location.col);
        }
    }

    /// Scrolls by `delta` pixels (positive moves the text up), within the
    /// scroll range.
    pub fn scroll(&mut self, delta: i64)
        requires
            old(self).wf(),
        ensures
            final(self).wf(),
            final(self).scroll_offset() == clamp(
                old(self).scroll_offset() + delta,
                max_scroll(old(self).text().len() as int, old(self).size().height as int),
            ),
            final(self).text() == old(self).text(),
            final(self).cursor() == old(self).cursor(),
            same_frame(*old(self), *final(self)),
    {
        let m = self.max_scroll_value();
        let v = self.scroll as i128 + delta as i128;
        self.scroll = if v < 0 {
            0
        } else if v > m as i128 {
            m
        } else {
            v as u128
        };
    }

    /// Takes the new size of the viewport, and brings the scroll offset
    /// back within the scroll range for it.
    pub fn update_size(&mut self, size: Size)
        requires
            old(self).wf(),
        ensures
            final(self).wf(),
            final(self).size() == size,
            final(self).scroll_offset() == clamp(
                old(self).scroll_offset(),
                max_scroll(old(self).text().len() as int, size.height as int),
            ),
            final(self).text() == old(self).text(),
            final(self).cursor() == old(self).cursor(),
            final(self).dragging() == old(self).dragging(),
            final(self).path() == old(self).path(),
    {
        self.size = size;
        let m = self.max_scroll_value();
        if self.scroll > m {
            self.scroll = m;
        }
    }

    /// Reacts to a typed character: a newline (`'\n'` or `'\r'`) splits the
    /// row, `'\u{8}'` deletes backwards, `'\u{7f}'` deletes forwards, a tab is
    /// ignored, and any other character is inserted; then the cursor's row
    /// is scrolled into view.
    pub fn handle_char_input(&mut self, input: char)
        requires
            old(self).wf(),
        ensures
            final(self).wf(),
            char_input_post(*old(self), *final(self), input),
    {
        if input == '\n' || input == '\r' {
            self.split_line();
        } else if input == '\u{8}' {
            self.backspace();
        } else if input == '\u{7f}' {
            self.delete_forward();
        } else if input == '\t' {
        } else {
            self.insert_char(input);
        }
        self.ensure_cursor_in_view();
        proof {
            self.lemma_text_fits();
            lemma_char_keeps_wf(old(self).text(), old(self).cursor(), input);
        }
    }

    /// Reacts to a key event: a press of an arrow key moves the cursor and
    /// drops the selection, or with Shift held extends the selection from
    /// its anchor (the cursor's old location when there was none); any press
    /// with a key scrolls the cursor's row into view; a release, or a key the
    /// layout does not name, does nothing.
    pub fn handle_keyboard_input(&mut self, input: KeyboardInput)
        requires
            old(self).wf(),
        ensures
            final(self).wf(),
            key_input_post(*old(self), *final(self), input),
    {
        let key = match input.virtual_keycode {
            Some(key) => key,
            None => return,
        };
        if input.state == ElementState::Released {
            return;
        }
        self.move_cursor(key, input.shift);
        self.ensure_cursor_in_view();
        proof {
            lemma_key_keeps_wf(old(self).text(), old(self).cursor(), key, input.shift);
        }
    }
}

/// The cursor after a press of `key`; with `extend` (Shift held) an arrow
/// key keeps the selection anchor, or sets it where the cursor stood.
pub open spec fn key_cursor(t: Seq<Seq<char>>, c: Cursor, key: Key, extend: bool) -> Cursor {
    let moved = match key {
        Key::Up => moved_up(t, c),
        Key::Down => moved_down(t, c),
        Key::Left => moved_left(t, c),
        Key::Right => moved_right(t, c),
        Key::Other => c,
    };
    let anchor = match c.selection_start {
        Some(a) => a,
        None => c.location,
    };
    if extend && key != Key::Other {
        Cursor { selection_start: Some(anchor), ..moved }
    } else {
        moved
    }
}

/// Everything but the text, the cursor and the scroll offset stays.
pub open spec fn same_frame(b0: Buffer, b1: Buffer) -> bool {
    &&& b1.dragging() == b0.dragging()
    &&& b1.size() == b0.size()
    &&& b1.path() == b0.path()
}

/// `b1` is `b0` after the character `ch` arrived.
pub open spec fn char_input_post(b0: Buffer, b1: Buffer, ch: char) -> bool {
    let t = char_text(b0.text(), b0.cursor(), ch);
    let c = char_cursor(b0.text(), b0.cursor(), ch);
    &&& b1.text() == t
    &&& b1.cursor() == c
    &&& b1.scroll_offset() == scroll_after(
        b0.scroll_offset(),
        c.location.row as int,
        t.len() as int,
        b0.size().height as int,
    )
    &&& same_frame(b0, b1)
}

/// `b1` is `b0` after the key event `input`.
pub open spec fn key_input_post(b0: Buffer, b1: Buffer, input: KeyboardInput) -> bool {
    match input.virtual_keycode {
        Some(key) if input.state == ElementState::Pressed => {
            let c = key_cursor(b0.text(), b0.cursor(), key, input.shift);
            &&& b1.text() == b0.text()
            &&& b1.cursor() == c
            &&& b1.scroll_offset() == scroll_after(
                b0.scroll_offset(),
                c.location.row as int,
                b0.text().len() as int,
                b0.size().height as int,
            )
            &&& same_frame(b0, b1)
        },
        _ => b1 == b0,
    }
}

/// `b1` is `b0` after the mouse event: `button` went to `state` with the
/// pointer at `p`.
pub open spec fn mouse_input_post(b0: Buffer, b1: Buffer, button: MouseButton, state: ElementState, p: Position) -> bool {
    if button == MouseButton::Left && state == ElementState::Pressed {
        let hit = hit_location(b0.text(), b0.scroll_offset(), p);
        &&& b1.cursor() == (Cursor { location: hit, col_affinity: hit.col, selection_start: Some(hit) })
        &&& b1.dragging()
        &&& b1.text() == b0.text()
        &&& b1.scroll_offset() == b0.scroll_offset()
        &&& b1.size() == b0.size()
        &&& b1.path() == b0.path()
    } else if button == MouseButton::Left {
        &&& b1.cursor() == b0.cursor()
        &&& !b1.dragging()
        &&& b1.text() == b0.text()
        &&& b1.scroll_offset() == b0.scroll_offset()
        &&& b1.size() == b0.size()
        &&& b1.path() == b0.path()
    } else {
        b1 == b0
    }
}

/// `b1` is `b0` after the pointer moved to `p`.
pub open spec fn mouse_move_post(b0: Buffer, b1: Buffer, p: Position) -> bool {
    if b0.dragging() {
        let hit = hit_location(b0.text(), b0.scroll_offset(), p);
        let anchor = match b0.cursor().selection_start {
            Some(a) => a,
            None => b0.cursor().location,
        };
        &&& b1.cursor() == (Cursor { location: hit, col_affinity: hit.col, selection_start: Some(anchor) })
        &&& b1.text() == b0.text()
        &&& b1.scroll_offset() == b0.scroll_offset()
        &&& same_frame(b0, b1)
    } else {
        b1 == b0
    }
}

/// Saving a buffer straight after loading it gives back the loaded text
/// exactly, trailing newlines included: `save` joins with `'\n'` the lines
/// that `new` split at each `'\n'`.
pub proof fn lemma_save_after_load(b: Buffer, content: Seq<char>)
    requires
        b.text() == split_lines(content),
    ensures
        join_lines(b.text()) == content,
{
    crate::text::lemma_join_split(content);
}

/// A character keeps the cursor well-formed.
pub proof fn lemma_char_keeps_wf(t: Seq<Seq<char>>, c: Cursor, ch: char)
    requires
        cursor_wf(t, c),
        lines_fit(char_text(t, c, ch)),
    ensures
        cursor_wf(char_text(t, c, ch), char_cursor(t, c, ch)),
{
}

/// A key press keeps the cursor well-formed.
pub proof fn lemma_key_keeps_wf(t: Seq<Seq<char>>, c: Cursor, key: Key, extend: bool)
    requires
        cursor_wf(t, c),
    ensures
        cursor_wf(t, key_cursor(t, c, key, extend)),
{
    match key {
        Key::Up => {
            let d = moved_up(t, c);
            assert(in_bounds(t, d.location));
        },
        Key::Down => {
            let d = moved_down(t, c);
            assert(in_bounds(t, d.location));
        },
        Key::Left => {
            let d = moved_left(t, c);
            assert(in_bounds(t, d.location));
            assert(d.location.col == col_toward(t, d.location.row as int, d.col_affinity));
        },
        Key::Right => {
            let d = moved_right(t, c);
            assert(in_bounds(t, d.location));
            assert(d.location.col == col_toward(t, d.location.row as int, d.col_affinity));
        },
        Key::Other => {},
    }
}

} // verus!
