//! The debug grid: which of its lines mark the centre, and how many vertices a line takes.

use vstd::prelude::*;

verus! {

pub const DEFAULT_GRID_WIDTH: i32 = 1000;

pub const DEFAULT_GRID_HEIGHT: i32 = 1000;

/// The part that a line plays in the grid.
#[derive(Debug, Copy, Clone, PartialEq, Eq, Structural)]
pub enum GridLine {
    /// The column through the centre, drawn in red.
    CenterColumn,
    /// The row through the centre, drawn in green.
    CenterRow,
    /// Any other line, drawn faintly.
    Plain,
}

pub struct Debug {}

impl Debug {
    pub fn new() -> Self {
        Debug {  }
    }

    /// The part of the `i`-th line of a grid whose lines are numbered through
    /// the columns first and the rows after them.
    pub open spec fn line_role_spec(i: int, columns: int, rows: int) -> GridLine {
        if i == columns / 2 {
            GridLine::CenterColumn
        } else if i == columns + rows / 2 {
            GridLine::CenterRow
        } else {
            GridLine::Plain
        }
    }

    pub fn line_role(i: usize, columns: usize, rows: usize) -> (role: GridLine)
        requires
            columns + rows <= usize::MAX,
        ensures
            role == Self::line_role_spec(i as int, columns as int, rows as int),
    {
        if i == columns / 2 {
            GridLine::CenterColumn
        } else if i == (columns + (rows / 2)) {
            GridLine::CenterRow
        } else {
            GridLine::Plain
        }
    }

    /// The number of vertices with which a line through `points` points is
    /// drawn: two triangles for each of its segments.
    pub fn vertex_count(points: usize) -> (count: u32)
        requires
            1 <= points,
            (points - 1) * 6 <= u32::MAX,
        ensures
            count == (points - 1) * 6,
    {
        let vertex_count: usize = (points - 1) * 6;
        vertex_count as u32
    }
}

} // verus!
