//! Positions in the buffer and selection spans between them.
use vstd::prelude::*;

verus! {

/// A position in the buffer: a row index and a character offset in that row.
#[derive(Debug, Clone, Copy, PartialEq, Eq, Structural)]
pub struct Location {
    pub row: usize,
    pub col: usize,
}

/// The order of locations: by row first, then by column.
pub open spec fn loc_le(a: Location, b: Location) -> bool {
    a.row < b.row || (a.row == b.row && a.col <= b.col)
}

/// The smaller of two locations in the buffer order.
pub open spec fn loc_min(a: Location, b: Location) -> Location {
    if loc_le(a, b) { a } else { b }
}

/// The larger of two locations in the buffer order.
pub open spec fn loc_max(a: Location, b: Location) -> Location {
    if loc_le(a, b) { b } else { a }
}

impl Location {
    /// The location at the very start of the buffer.
    pub fn new() -> (r: Location)
        ensures
            r.row == 0,
            r.col == 0,
    {
        Location { row: 0, col: 0 }
    }

    /// Whether `self` comes no later than `other`.
    pub fn le(&self, other: &Location) -> (r: bool)
        ensures
            r == loc_le(*self, *other),
    {
        self.row < other.row || (self.row == other.row && self.col <= other.col)
    }
}

/// The stretch of text between two locations, with `start` never after `end`.
#[derive(Debug, Clone, Copy, PartialEq, Eq, Structural)]
pub struct Span {
    pub start: Location,
    pub end: Location,
}

impl Span {
    /// The span between two locations given in either order.
    pub fn new(start: Location, end: Location) -> (r: Span)
        ensures
            r.start == loc_min(start, end),
            r.end == loc_max(start, end),
    {
        if start.le(&end) {
            Span { start, end }
        } else {
            Span { start: end, end: start }
        }
    }

    /// Whether row `line` holds part of the span.
    pub fn contains_line(&self, line: usize) -> (r: bool)
        ensures
            r == span_contains_line(*self, line as int),
    {
        self.start.row <= line && self.end.row >= line
    }

    /// The columns `(from, to)` of row `line` that the span covers, where the
    /// row is `line_length` characters long; `None` for a row outside it.
    pub fn get_char_indices_for_line(&self, line: usize, line_length: usize) -> (r: Option<(usize, usize)>)
        ensures
            r == span_cols_on_line(*self, line as int, line_length),
    {
        if !self.contains_line(line) {
            return None;
        }
        if self.start.row == self.end.row {
            Some((self.start.col, self.end.col))
        } else if self.start.row == line {
            Some((self.start.col, line_length))
        } else if self.end.row == line {
            Some((0, self.end.col))
        } else {
            Some((0, line_length))
        }
    }
}

/// Whether row `line` lies between the span's first and last rows.
pub open spec fn span_contains_line(s: Span, line: int) -> bool {
    s.start.row <= line <= s.end.row
}

/// The part of row `line` (of length `len`) that the span covers: the whole
/// row, from the start column to the end of the row, from the row's start to
/// the end column, or between the two columns when the span fits in one row.
pub open spec fn span_cols_on_line(s: Span, line: int, len: usize) -> Option<(usize, usize)> {
    if !span_contains_line(s, line) {
        None
    } else if s.start.row == s.end.row {
        Some((s.start.col, s.end.col))
    } else if s.start.row == line {
        Some((s.start.col, len))
    } else if s.end.row == line {
        Some((0, s.end.col))
    } else {
        Some((0, len))
    }
}

/// The span between two locations does not depend on the order in which
/// they are given: both orders give the earlier one as start and the later
/// one as end.
pub proof fn lemma_span_symmetric(a: Location, b: Location)
    ensures
        loc_min(a, b) == loc_min(b, a),
        loc_max(a, b) == loc_max(b, a),
        loc_le(loc_min(a, b), loc_max(a, b)),
{
}

} // verus!
