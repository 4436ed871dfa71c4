//! Grid coordinates, spans and the two normalizing functions on them.
use vstd::prelude::*;

verus! {

/// Widest span a module may take, in columns.
pub const MAX_MODULE_W: u32 = 12;

/// Tallest span a module may take, in rows.
pub const MAX_MODULE_H: u32 = 8;

/// Grid position (column, row) in grid units, origin top-left.
#[derive(Clone, Copy, Debug, PartialEq, Eq, Hash, Structural)]
pub struct GridPosition {
    pub col: u32,
    pub row: u32,
}

/// Size in grid units (span columns, span rows).
#[derive(Clone, Copy, Debug, PartialEq, Eq, Structural)]
pub struct GridSize {
    pub w: u32,
    pub h: u32,
}

/// `v` held to the closed range `[lo, hi]`.
pub open spec fn clamp_int(v: int, lo: int, hi: int) -> int {
    if v < lo {
        lo
    } else if v > hi {
        hi
    } else {
        v
    }
}

/// The last valid index of an axis of `n` cells (0 for an empty axis).
pub open spec fn last_cell(n: u32) -> int {
    if n == 0 {
        0
    } else {
        n - 1
    }
}

/// The anchor cell of `p` pulled inside a grid of `max_col` by `max_row` cells.
pub open spec fn snapped(p: GridPosition, max_col: u32, max_row: u32) -> GridPosition {
    GridPosition {
        col: clamp_int(p.col as int, 0, last_cell(max_col)) as u32,
        row: clamp_int(p.row as int, 0, last_cell(max_row)) as u32,
    }
}

/// `s` held to the module size limits.
pub open spec fn clamped(s: GridSize) -> GridSize {
    GridSize {
        w: clamp_int(s.w as int, 1, MAX_MODULE_W as int) as u32,
        h: clamp_int(s.h as int, 1, MAX_MODULE_H as int) as u32,
    }
}

impl GridSize {
    /// A size within the module limits.
    pub open spec fn is_valid(self) -> bool {
        1 <= self.w <= MAX_MODULE_W && 1 <= self.h <= MAX_MODULE_H
    }
}

impl GridPosition {
    /// An anchor cell inside a grid of `cols` by `rows` cells.
    pub open spec fn is_inside(self, cols: u32, rows: u32) -> bool {
        self.col < cols && self.row < rows
    }
}

/// Clamps the column to `[0, max_col - 1]` and the row to `[0, max_row - 1]`.
/// Only the anchor cell is pulled in: the span may still reach past the edge.
pub fn snap_position(p: GridPosition, max_col: u32, max_row: u32) -> (r: GridPosition)
    ensures
        r == snapped(p, max_col, max_row),
        max_col >= 1 ==> r.col < max_col,
        max_row >= 1 ==> r.row < max_row,
        p.is_inside(max_col, max_row) ==> r == p,
{
    let last_col = max_col.saturating_sub(1);
    let last_row = max_row.saturating_sub(1);
    GridPosition {
        col: if p.col < last_col { p.col } else { last_col },
        row: if p.row < last_row { p.row } else { last_row },
    }
}

/// Clamps the width to `[1, 12]` and the height to `[1, 8]`, whatever the grid.
pub fn clamp_size(s: GridSize) -> (r: GridSize)
    ensures
        r == clamped(s),
        r.is_valid(),
        s.is_valid() ==> r == s,
{
    GridSize {
        w: if s.w < 1 { 1 } else if s.w > MAX_MODULE_W { MAX_MODULE_W } else { s.w },
        h: if s.h < 1 { 1 } else if s.h > MAX_MODULE_H { MAX_MODULE_H } else { s.h },
    }
}

} // verus!
