//! The draw commands of one frame: for each visible row its line number,
//! its selected part, its text, and the cursor, in window pixels.
use vstd::prelude::*;
use crate::buffer::Buffer;
use crate::cursor::{Cursor, selection_of};
use crate::location::{Span, span_cols_on_line};
use crate::view::{LINE_HEIGHT, GLYPH_ADVANCE_MILLI, GUTTER_BASE, GUTTER_DIGIT, gutter_width, count_digits, lemma_digit_count_le};

verus! {

/// Left margin of the line numbers.
pub const NUMBER_MARGIN: u32 = 10;

/// Width of the cursor bar.
pub const CURSOR_WIDTH: u32 = 2;

/// What a rectangle marks, which decides its color.
#[derive(Debug, Clone, Copy, PartialEq, Eq, Structural)]
pub enum Fill {
    Selection,
    Cursor,
}

/// One thing to draw, at window pixel coordinates (`y` is the top).
#[derive(Debug, Clone, Copy, PartialEq, Eq, Structural)]
pub enum DrawCommand {
    /// The number of a row (counting from one), in the gutter.
    LineNumber { number: usize, x: i128, y: i128 },
    /// The text of row `row`.
    Line { row: usize, x: i128, y: i128 },
    /// A filled rectangle.
    Rect { x: i128, y: i128, width: i128, height: i128, fill: Fill },
}

/// The horizontal offset of column `col` from the text's left edge.
pub open spec fn col_x(col: int) -> int {
    col * GLYPH_ADVANCE_MILLI / 1000
}

/// The top of row `row` in the window, for scroll offset `scroll`.
pub open spec fn row_y(row: int, scroll: int) -> int {
    row * LINE_HEIGHT - scroll
}

/// The selection rectangle on row `row`, if the selection covers part of it.
pub open spec fn selection_cmds(t: Seq<Seq<char>>, sel: Option<Span>, scroll: int, row: int) -> Seq<DrawCommand> {
    match sel {
        Some(s) => match span_cols_on_line(s, row, t[row].len() as usize) {
            Some((from, to)) => {
                let g = gutter_width(t.len());
                seq![DrawCommand::Rect {
                    x: (g + col_x(from as int)) as i128,
                    y: row_y(row, scroll) as i128,
                    width: (col_x(to as int) - col_x(from as int)) as i128,
                    height: LINE_HEIGHT as i128,
                    fill: Fill::Selection,
                }]
            },
            None => Seq::empty(),
        },
        None => Seq::empty(),
    }
}

/// The cursor bar, if the cursor stands on row `row`.
pub open spec fn cursor_cmds(t: Seq<Seq<char>>, c: Cursor, scroll: int, row: int) -> Seq<DrawCommand> {
    if c.location.row == row {
        let g = gutter_width(t.len());
        seq![DrawCommand::Rect {
            x: (g + col_x(c.location.col as int)) as i128,
            y: row_y(row, scroll) as i128,
            width: CURSOR_WIDTH as i128,
            height: LINE_HEIGHT as i128,
            fill: Fill::Cursor,
        }]
    } else {
        Seq::empty()
    }
}

/// What row `row` draws: the selection behind the text, the line number,
/// the text, and the cursor on top.
pub open spec fn row_cmds(t: Seq<Seq<char>>, c: Cursor, scroll: int, row: int) -> Seq<DrawCommand> {
    let y = row_y(row, scroll) as i128;
    selection_cmds(t, selection_of(c), scroll, row)
        + seq![
            DrawCommand::LineNumber { number: (row + 1) as usize, x: NUMBER_MARGIN as i128, y },
            DrawCommand::Line { row: row as usize, x: gutter_width(t.len()) as i128, y },
        ]
        + cursor_cmds(t, c, scroll, row)
}

/// What rows `row` and on draw, up to the first row whose top lies below
/// the viewport's height `height`.
pub open spec fn rows_cmds(t: Seq<Seq<char>>, c: Cursor, scroll: int, height: int, row: int) -> Seq<DrawCommand>
    decreases t.len() - row,
{
    if row < 0 || row >= t.len() || row_y(row, scroll) > height {
        Seq::empty()
    } else {
        row_cmds(t, c, scroll, row) + rows_cmds(t, c, scroll, height, row + 1)
    }
}

/// What a frame draws: the rows from the first one that the scroll offset
/// reaches.
pub open spec fn frame_cmds(t: Seq<Seq<char>>, c: Cursor, scroll: int, height: int) -> Seq<DrawCommand> {
    rows_cmds(t, c, scroll, height, scroll / (LINE_HEIGHT as int))
}

proof fn lemma_text_fits_len(b: &Buffer)
    requires
        b.wf(),
    ensures
        b.text().len() <= usize::MAX,
        b.scroll_offset() <= b.text().len() * LINE_HEIGHT + 5,
{
}

impl Buffer {
    /// The draw commands of the buffer in its viewport.
    pub fn draw_commands(&self) -> (r: Vec<DrawCommand>)
        requires
            self.wf(),
        ensures
            r@ == frame_cmds(self.text(), self.cursor(), self.scroll_offset(), self.size().height as int),
    {
        let ghost t = self.text();
        let ghost c = self.cursor();
        let ghost s = self.scroll_offset();
        let ghost h = self.size().height as int;
        let n = self.line_count();
        let digits = count_digits(n);
        let gutter: i128 = GUTTER_BASE as i128 + (digits as i128) * (GUTTER_DIGIT as i128);
        let scroll = self.scroll_position();
        let height = self.viewport().height as i128;
        let cursor = self.cursor_location();
        let selection = self.selection();
        let lh = LINE_HEIGHT as i128;
        let first = scroll / (LINE_HEIGHT as u128);
        let mut out: Vec<DrawCommand> = Vec::new();
        if first >= n as u128 {
            proof {
                assert(frame_cmds(t, c, s, h) == Seq::<DrawCommand>::empty());
            }
            return out;
        }
        let mut row: usize = first as usize;
        proof {
            lemma_text_fits_len(self);
            if n >= 1 {
                lemma_digit_count_le(n as nat);
            }
        }
        while row < n
            invariant
                first <= row <= n,
                n == t.len(),
                out@ + rows_cmds(t, c, s, h, row as int) == frame_cmds(t, c, s, h),
                s == scroll as int,
                h == height as int,
                0 <= s <= t.len() * LINE_HEIGHT + 5,
                t.len() <= usize::MAX,
                lh == LINE_HEIGHT as i128,
                self.wf(),
                t == self.text(),
                c == self.cursor(),
                s == self.scroll_offset(),
                gutter == gutter_width(t.len()),
                0 <= gutter <= GUTTER_BASE + GUTTER_DIGIT * (t.len() + 1),
                cursor == c.location,
                selection == selection_of(c),
            ensures
                out@ == frame_cmds(t, c, s, h),
            decreases n - row,
        {
            let y: i128 = (row as i128) * lh - scroll as i128;
            if y > height {
                proof {
                    assert(out@ + Seq::<DrawCommand>::empty() =~= out@);
                }
                break;
            }
            let ghost before = out@;
            match selection {
                Some(span) => match span.get_char_indices_for_line(row, self.line_len(row)) {
                    Some((from, to)) => {
                        let x0 = gutter + (from as i128) * (GLYPH_ADVANCE_MILLI as i128) / 1000;
                        let x1 = gutter + (to as i128) * (GLYPH_ADVANCE_MILLI as i128) / 1000;
                        out.push(DrawCommand::Rect { x: x0, y, width: x1 - x0, height: lh, fill: Fill::Selection });
                    },
                    None => {},
                },
                None => {},
            }
            out.push(DrawCommand::LineNumber { number: row + 1, x: NUMBER_MARGIN as i128, y });
            out.push(DrawCommand::Line { row, x: gutter, y });
            if cursor.row == row {
                let x = gutter + (cursor.col as i128) * (GLYPH_ADVANCE_MILLI as i128) / 1000;
                out.push(DrawCommand::Rect { x, y, width: CURSOR_WIDTH as i128, height: lh, fill: Fill::Cursor });
            }
            proof {
                assert(out@ =~= before + row_cmds(t, c, s, row as int));
                assert(out@ + rows_cmds(t, c, s, h, row + 1) =~= before + rows_cmds(t, c, s, h, row as int));
            }
            row += 1;
            proof {
                if row == n {
                    assert(out@ + Seq::<DrawCommand>::empty() =~= out@);
                }
            }
        }
        out
    }
}

} // verus!
