//! The cursor: where edits happen, the column it keeps across vertical
//! moves, and the anchor of a selection.
use vstd::prelude::*;
use crate::location::{Location, Span, loc_min, loc_max};

verus! {

/// The cursor's location, the column it returns to when moving up and down
/// through shorter lines, and the other end of the selection, if any.
#[derive(Debug, Clone, Copy, PartialEq, Eq, Structural)]
pub struct Cursor {
    pub location: Location,
    pub col_affinity: usize,
    pub selection_start: Option<Location>,
}

/// The selection between the anchor and the cursor, `None` without anchor.
pub open spec fn selection_of(c: Cursor) -> Option<Span> {
    match c.selection_start {
        Some(a) => Some(Span { start: loc_min(a, c.location), end: loc_max(a, c.location) }),
        None => None,
    }
}

impl Cursor {
    /// A cursor at the start of the buffer, with no selection.
    pub fn new() -> (r: Cursor)
        ensures
            r.location == (Location { row: 0, col: 0 }),
            r.col_affinity == 0,
            r.selection_start is None,
    {
        Cursor { location: Location::new(), col_affinity: 0, selection_start: None }
    }

    /// Moves the cursor to row `row`, keeping its column.
    pub fn set_row(&mut self, row: usize)
        ensures
            *final(self) == (Cursor { location: Location { row, col: old(self).location.col }, ..*old(self) }),
    {
        self.location.row = row;
    }

    /// Moves the cursor to column `col`, keeping the column it remembers.
    pub fn set_col(&mut self, col: usize)
        ensures
            *final(self) == (Cursor { location: Location { row: old(self).location.row, col }, ..*old(self) }),
    {
        self.location.col = col;
    }

    /// Moves the cursor to column `col` and remembers that column.
    pub fn set_col_with_affinity(&mut self, col: usize)
        ensures
            *final(self) == (Cursor {
                location: Location { row: old(self).location.row, col },
                col_affinity: col,
                ..*old(self)
            }),
    {
        self.location.col = col;
        self.col_affinity = col;
    }

    /// The selected span, or `None` when nothing is selected.
    pub fn selection_span(&self) -> (r: Option<Span>)
        ensures
            r == selection_of(*self),
    {
        let selection_start = match self.selection_start {
            Some(selection_start) => selection_start,
            None => return None,
        };
        Some(Span::new(selection_start, self.location))
    }
}

/// Selecting from `a` to `b` and from `b` to `a` gives the same span:
/// the earlier location is its start and the later one its end.
pub proof fn lemma_selection_symmetric(a: Location, b: Location, affinity_a: usize, affinity_b: usize)
    ensures
        selection_of(Cursor { location: b, col_affinity: affinity_b, selection_start: Some(a) })
            == selection_of(Cursor { location: a, col_affinity: affinity_a, selection_start: Some(b) }),
        selection_of(Cursor { location: b, col_affinity: affinity_b, selection_start: Some(a) })
            == Some(Span { start: loc_min(a, b), end: loc_max(a, b) }),
{
    crate::location::lemma_span_symmetric(a, b);
}

} // verus!
