//! Integer geometry.

use vstd::prelude::*;

verus! {

/// A rectangle given by its centre and its extent.
#[derive(Clone, Copy, Debug, Default)]
pub struct Rect<T> {
    pub x: T,
    pub y: T,
    pub width: T,
    pub height: T,
}

#[derive(Debug, Clone, Copy, PartialEq, Eq, Structural)]
pub enum MajorOrder {
    Column,
    Row,
}

/// The number of columns and of rows of a grid.
#[derive(Debug, Clone, Copy, PartialEq, Eq, Structural)]
pub struct GridExtent {
    pub columns: usize,
    pub rows: usize,
}

/// The next even number from `n` up.
pub open spec fn even_up(n: int) -> int {
    if n % 2 == 0 {
        n
    } else {
        n + 1
    }
}

impl GridExtent {
    /// The extent of the grid that is asked for with a width and a height:
    /// nothing if either is 0, else each rounded up to an even number so
    /// that the grid has a line through its centre.
    pub open spec fn of_spec(width: int, height: int) -> GridExtent {
        if width == 0 || height == 0 {
            GridExtent { columns: 0, rows: 0 }
        } else {
            GridExtent { columns: even_up(width) as usize, rows: even_up(height) as usize }
        }
    }

    pub fn of(width: i32, height: i32) -> (extent: GridExtent)
        requires
            0 <= width < i32::MAX,
            0 <= height < i32::MAX,
        ensures
            extent == Self::of_spec(width as int, height as int),
    {
        if width == 0 || height == 0 {
            return GridExtent { columns: 0, rows: 0 };
        }
        // Make sure the grid can be aligned easily

        let w: i32 = if width % 2 == 0 {
            width
        } else {
            width + 1
        };
        let h: i32 = if height % 2 == 0 {
            height
        } else {
            height + 1
        };
        GridExtent { columns: w as usize, rows: h as usize }
    }

    /// The extent of the grid with two points to a line: as `of`, but a
    /// width or height of 0 stays 0 on its own.
    pub fn of_minimal(width: i32, height: i32) -> (extent: GridExtent)
        requires
            0 <= width < i32::MAX,
            0 <= height < i32::MAX,
        ensures
            extent.columns == even_up(width as int),
            extent.rows == even_up(height as int),
    {
        let w: i32 = if width % 2 == 0 {
            width
        } else {
            width + 1
        };
        let h: i32 = if height % 2 == 0 {
            height
        } else {
            height + 1
        };
        GridExtent { columns: w as usize, rows: h as usize }
    }

    /// The number of lines of the grid.
    pub fn len(&self) -> (n: usize)
        requires
            self.columns + self.rows <= usize::MAX,
        ensures
            n == self.columns + self.rows,
    {
        self.columns + self.rows
    }

    /// The number of points of the full grid, counted along its columns
    /// and again along its rows.
    pub fn point_count(&self) -> (n: usize)
        requires
            2 * (self.columns * self.rows) <= usize::MAX,
        ensures
            n == 2 * (self.columns * self.rows),
    {
        let cells: usize = self.columns * self.rows;
        2 * cells
    }
}

} // verus!
