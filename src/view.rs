//! Pixel geometry of the text area: line height, the gutter for line
//! numbers, the scroll range, and the mapping from pointer positions back
//! to rows and columns. All distances are whole pixels.
use vstd::prelude::*;
use crate::location::Location;

verus! {

/// Height of one row of text.
pub const LINE_HEIGHT: u32 = 40;

/// Extra room below the last row when scrolling down.
pub const SCROLL_PADDING: u32 = 5;

/// Average horizontal advance of one glyph, in thousandths of a pixel.
pub const GLYPH_ADVANCE_MILLI: u32 = 19066;

/// Left margin before the line numbers, plus the gap after them.
pub const GUTTER_BASE: u32 = 40;

/// Width that each decimal digit of the line count adds to the gutter.
pub const GUTTER_DIGIT: u32 = 20;

/// The size of the viewport.
#[derive(Debug, Clone, Copy, PartialEq, Eq, Structural)]
pub struct Size {
    pub width: u32,
    pub height: u32,
}

/// A pointer position in window pixels; it may lie outside the window.
#[derive(Debug, Clone, Copy, PartialEq, Eq, Structural)]
pub struct Position {
    pub x: i32,
    pub y: i32,
}

/// The number of decimal digits of `n` (one for zero).
pub open spec fn digit_count(n: nat) -> nat
    decreases n,
{
    if n < 10 {
        1
    } else {
        1 + digit_count(n / 10)
    }
}

/// The width of the gutter for a buffer of `line_count` lines.
pub open spec fn gutter_width(line_count: nat) -> int {
    GUTTER_BASE + digit_count(line_count) * GUTTER_DIGIT
}

/// The largest scroll offset: the height of all rows and the padding, less
/// the height of the viewport, and zero when everything fits.
pub open spec fn max_scroll(line_count: int, height: int) -> int {
    let content = line_count * LINE_HEIGHT + SCROLL_PADDING;
    if content > height {
        content - height
    } else {
        0
    }
}

/// `v` held within `[0, max]`.
pub open spec fn clamp(v: int, max: int) -> int {
    if v < 0 {
        0
    } else if v > max {
        max
    } else {
        v
    }
}

/// The scroll offset that brings row `row` into view: scroll up to the
/// row's top when it lies above, scroll down until its bottom (and the
/// padding) shows when it lies below, and keep the offset otherwise.
pub open spec fn reveal_row(scroll: int, row: int, height: int) -> int {
    let y = row * LINE_HEIGHT;
    if y < scroll {
        y
    } else if y + LINE_HEIGHT > scroll + height {
        y + LINE_HEIGHT + SCROLL_PADDING - height
    } else {
        scroll
    }
}

/// The scroll offset after the cursor moved to row `row` of a buffer of
/// `line_count` lines: the row is revealed, and the offset kept within the
/// scroll range.
pub open spec fn scroll_after(scroll: int, row: int, line_count: int, height: int) -> int {
    let r = reveal_row(scroll, row, height);
    let m = max_scroll(line_count, height);
    if r > m {
        m
    } else {
        r
    }
}

/// The column nearest to `x` pixels from the text's left edge.
pub open spec fn column_at(x: int) -> int {
    (x * 1000 + GLYPH_ADVANCE_MILLI / 2) / (GLYPH_ADVANCE_MILLI as int)
}

/// A number has no more decimal digits than its value.
pub proof fn lemma_digit_count_le(n: nat)
    requires
        n >= 1,
    ensures
        digit_count(n) <= n,
    decreases n,
{
    if n >= 10 {
        lemma_digit_count_le(n / 10);
    }
}

/// The location under the pointer at `p` in a buffer of lines `t` scrolled
/// by `scroll`: the row under the pointer, at the column nearest to it
/// (within the row); a pointer left of the text area counts as the row's
/// start, one above the first row as the first row, and one below the last
/// row as the end of the buffer.
pub open spec fn hit_location(t: Seq<Seq<char>>, scroll: int, p: Position) -> Location {
    let x = p.x - gutter_width(t.len());
    let ax: int = if x < 0 { 0 } else { x };
    let ay: int = p.y + scroll;
    let row: int = if ay < 0 { 0 } else { ay / (LINE_HEIGHT as int) };
    if row >= t.len() {
        Location { row: (t.len() - 1) as usize, col: t.last().len() as usize }
    } else {
        let col = column_at(ax);
        Location { row: row as usize, col: if col <= t[row].len() { col as usize } else { t[row].len() as usize } }
    }
}

/// The number of decimal digits of `n`.
pub fn count_digits(n: usize) -> (r: usize)
    ensures
        r == digit_count(n as nat),
{
    proof {
        if n >= 10 {
            lemma_digit_count_le(n as nat);
        }
    }
    let mut m: usize = n;
    let mut k: usize = 1;
    while m >= 10
        invariant
            k + digit_count(m as nat) == 1 + digit_count(n as nat),
            n >= 10 ==> digit_count(n as nat) <= n,
        decreases m,
    {
        assert(digit_count((m / 10) as nat) >= 1);
        m = m / 10;
        k = k + 1;
    }
    k
}

} // verus!
