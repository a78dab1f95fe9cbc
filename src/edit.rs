//! What each keyboard movement and each edit does to the text and the
//! cursor, stated over the lines of the buffer.
use vstd::prelude::*;
use crate::location::Location;
use crate::cursor::Cursor;

verus! {

/// Whether the number of lines and the length of each fit in a `usize`.
pub open spec fn lines_fit(t: Seq<Seq<char>>) -> bool {
    &&& t.len() <= usize::MAX
    &&& forall|i: int| 0 <= i < t.len() ==> #[trigger] t[i].len() <= usize::MAX
}

/// Whether `l` names a row of `t` and a column within or at the end of it.
pub open spec fn in_bounds(t: Seq<Seq<char>>, l: Location) -> bool {
    l.row < t.len() && l.col <= t[l.row as int].len()
}

/// The column that a cursor remembering column `affinity` takes on row `row`.
pub open spec fn col_toward(t: Seq<Seq<char>>, row: int, affinity: usize) -> usize {
    if affinity <= t[row].len() {
        affinity
    } else {
        t[row].len() as usize
    }
}

/// A well-formed cursor on `t`: `t` has a line and fits in memory; the cursor and the
/// selection anchor lie within it; and the cursor stands at the column it
/// remembers, or at the end of a row too short for that column.
pub open spec fn cursor_wf(t: Seq<Seq<char>>, c: Cursor) -> bool {
    &&& t.len() >= 1
    &&& lines_fit(t)
    &&& in_bounds(t, c.location)
    &&& c.location.col == col_toward(t, c.location.row as int, c.col_affinity)
    &&& match c.selection_start {
        Some(a) => in_bounds(t, a),
        None => true,
    }
}

/// The cursor after Up: one row up (staying on the first row), at the
/// remembered column or the end of that row, without selection.
pub open spec fn moved_up(t: Seq<Seq<char>>, c: Cursor) -> Cursor {
    let row: int = if c.location.row == 0 { 0 } else { c.location.row - 1 };
    Cursor {
        location: Location { row: row as usize, col: col_toward(t, row, c.col_affinity) },
        col_affinity: c.col_affinity,
        selection_start: None,
    }
}

/// The cursor after Down: one row down (staying on the last row), at the
/// remembered column or the end of that row, without selection.
pub open spec fn moved_down(t: Seq<Seq<char>>, c: Cursor) -> Cursor {
    let row: int = if c.location.row + 1 < t.len() { c.location.row + 1 } else { c.location.row as int };
    Cursor {
        location: Location { row: row as usize, col: col_toward(t, row, c.col_affinity) },
        col_affinity: c.col_affinity,
        selection_start: None,
    }
}

/// The cursor after Left: one column back, or to the end of the previous
/// row from a row's start; it then remembers its new column. Nothing moves
/// at the start of the buffer. The selection is dropped.
pub open spec fn moved_left(t: Seq<Seq<char>>, c: Cursor) -> Cursor {
    let l = c.location;
    if l.col > 0 {
        Cursor {
            location: Location { row: l.row, col: (l.col - 1) as usize },
            col_affinity: (l.col - 1) as usize,
            selection_start: None,
        }
    } else if l.row > 0 {
        let len = t[l.row - 1].len() as usize;
        Cursor {
            location: Location { row: (l.row - 1) as usize, col: len },
            col_affinity: len,
            selection_start: None,
        }
    } else {
        Cursor { selection_start: None, ..c }
    }
}

/// The cursor after Right: one column on, or to the start of the next row
/// from a row's end; it then remembers its new column. Nothing moves at the
/// end of the buffer. The selection is dropped.
pub open spec fn moved_right(t: Seq<Seq<char>>, c: Cursor) -> Cursor {
    let l = c.location;
    if l.col < t[l.row as int].len() {
        Cursor {
            location: Location { row: l.row, col: (l.col + 1) as usize },
            col_affinity: (l.col + 1) as usize,
            selection_start: None,
        }
    } else if l.row + 1 < t.len() {
        Cursor {
            location: Location { row: (l.row + 1) as usize, col: 0 },
            col_affinity: 0,
            selection_start: None,
        }
    } else {
        Cursor { selection_start: None, ..c }
    }
}

/// The text after typing `ch` at `l`.
pub open spec fn inserted_text(t: Seq<Seq<char>>, l: Location, ch: char) -> Seq<Seq<char>> {
    t.update(l.row as int, t[l.row as int].insert(l.col as int, ch))
}

/// The cursor after typing: one column on, remembering that column.
pub open spec fn inserted_cursor(c: Cursor) -> Cursor {
    Cursor {
        location: Location { row: c.location.row, col: (c.location.col + 1) as usize },
        col_affinity: (c.location.col + 1) as usize,
        selection_start: None,
    }
}

/// The text after a newline at `l`: the row keeps what stands before the
/// column, and what follows becomes a new row right below it.
pub open spec fn split_text(t: Seq<Seq<char>>, l: Location) -> Seq<Seq<char>> {
    let line = t[l.row as int];
    t.update(l.row as int, line.take(l.col as int)).insert(l.row + 1, line.skip(l.col as int))
}

/// The cursor after a newline: at the start of the new row.
pub open spec fn split_cursor(c: Cursor) -> Cursor {
    Cursor {
        location: Location { row: (c.location.row + 1) as usize, col: 0 },
        col_affinity: 0,
        selection_start: None,
    }
}

/// The text after Backspace at `l`: the character before the column goes;
/// at a row's start the row is appended to the previous one; nothing
/// changes at the start of the buffer.
pub open spec fn backspaced_text(t: Seq<Seq<char>>, l: Location) -> Seq<Seq<char>> {
    if l.col > 0 {
        t.update(l.row as int, t[l.row as int].remove(l.col - 1))
    } else if l.row > 0 {
        t.update(l.row - 1, t[l.row - 1] + t[l.row as int]).remove(l.row as int)
    } else {
        t
    }
}

/// The cursor after Backspace: one column back, or at the join point at
/// the end of the previous row's old text; unchanged at the start of the
/// buffer.
pub open spec fn backspaced_cursor(t: Seq<Seq<char>>, c: Cursor) -> Cursor {
    let l = c.location;
    if l.col > 0 {
        Cursor {
            location: Location { row: l.row, col: (l.col - 1) as usize },
            col_affinity: (l.col - 1) as usize,
            selection_start: None,
        }
    } else if l.row > 0 {
        let len = t[l.row - 1].len() as usize;
        Cursor {
            location: Location { row: (l.row - 1) as usize, col: len },
            col_affinity: len,
            selection_start: None,
        }
    } else {
        c
    }
}

/// The text after forward-delete at `l`: the character at the column goes;
/// nothing changes at the end of a row.
pub open spec fn deleted_text(t: Seq<Seq<char>>, l: Location) -> Seq<Seq<char>> {
    if l.col < t[l.row as int].len() {
        t.update(l.row as int, t[l.row as int].remove(l.col as int))
    } else {
        t
    }
}

/// The cursor after forward-delete: it stays; the selection is dropped
/// when a character went.
pub open spec fn deleted_cursor(t: Seq<Seq<char>>, c: Cursor) -> Cursor {
    if c.location.col < t[c.location.row as int].len() {
        Cursor { selection_start: None, ..c }
    } else {
        c
    }
}

/// The text after the character `ch` arrives: `'\n'` and `'\r'` split the
/// row, `'\u{8}'` is Backspace, `'\u{7f}'` is forward-delete, a tab is
/// ignored, and any other character is typed.
pub open spec fn char_text(t: Seq<Seq<char>>, c: Cursor, ch: char) -> Seq<Seq<char>> {
    if ch == '\n' || ch == '\r' {
        split_text(t, c.location)
    } else if ch == '\u{8}' {
        backspaced_text(t, c.location)
    } else if ch == '\u{7f}' {
        deleted_text(t, c.location)
    } else if ch == '\t' {
        t
    } else {
        inserted_text(t, c.location, ch)
    }
}

/// The cursor after the character `ch` arrives (see `char_text`).
pub open spec fn char_cursor(t: Seq<Seq<char>>, c: Cursor, ch: char) -> Cursor {
    if ch == '\n' || ch == '\r' {
        split_cursor(c)
    } else if ch == '\u{8}' {
        backspaced_cursor(t, c)
    } else if ch == '\u{7f}' {
        deleted_cursor(t, c)
    } else if ch == '\t' {
        c
    } else {
        inserted_cursor(c)
    }
}

/// Down then Up returns the cursor to where it stood: Down keeps the
/// remembered column, and Up brings it back to the starting row, where that
/// column gives the starting column again. This needs a row below the
/// cursor (or a buffer of one line), since Down on the last row stays put.
pub proof fn lemma_down_then_up(t: Seq<Seq<char>>, c: Cursor)
    requires
        cursor_wf(t, c),
        c.location.row + 1 < t.len() || t.len() == 1,
    ensures
        moved_up(t, moved_down(t, c)).location == c.location,
        moved_up(t, moved_down(t, c)).col_affinity == c.col_affinity,
{
}

/// Backspace at the start of the buffer changes neither the text nor the
/// cursor.
pub proof fn lemma_backspace_at_start(t: Seq<Seq<char>>, c: Cursor)
    requires
        cursor_wf(t, c),
        c.location == (Location { row: 0, col: 0 }),
    ensures
        backspaced_text(t, c.location) == t,
        backspaced_cursor(t, c) == c,
{
}

/// Forward-delete at the end of the buffer changes neither the text nor the
/// cursor.
pub proof fn lemma_delete_at_end(t: Seq<Seq<char>>, c: Cursor)
    requires
        cursor_wf(t, c),
        c.location.row == t.len() - 1,
        c.location.col == t.last().len(),
    ensures
        deleted_text(t, c.location) == t,
        deleted_cursor(t, c) == c,
{
}

} // verus!
