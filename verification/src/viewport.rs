//! The logical viewport: the rectangle of (column, row) cells currently
//! visible over the virtual byte-addressed space.

use vstd::prelude::*;

verus! {

/// The rectangle of cells that is currently (partially) visible, placed in a
/// virtual grid that is `virtual_columns` cells wide.
#[derive(Clone, Copy, Debug, Eq, PartialEq, Structural)]
pub struct Viewport {
    /// The first column in the viewport. With sub-cell horizontal stepping
    /// this column might be only partially visible.
    pub x: i64,
    /// The first row in the viewport. Always fully visible as long as the
    /// viewport is high enough to fit at least one row, since vertical
    /// scrolling always happens per row.
    pub y: i64,
    /// The number of columns (partially) visible.
    pub columns: i64,
    /// The number of rows (partially) visible.
    pub rows: i64,
    /// How far the view is shifted beyond the first column, in whole pixels
    /// of the cell width. Always 0 when scrolling happens per whole cell;
    /// only zero-ness and equality of this value matter to the engine.
    pub shift_x: i64,
    /// The width of the virtual grid, in cells.
    pub virtual_columns: i64,
}

impl Viewport {
    /// Well-formedness: everything non-negative, and all the sizes far
    /// enough below the integer limits that grid arithmetic stays exact.
    pub open spec fn wf(&self) -> bool {
        &&& 0 <= self.x <= 0x10_0000
        &&& 0 <= self.y <= 0x400_0000_0000
        &&& 0 <= self.columns <= 0x10_0000
        &&& 0 <= self.rows <= 0x10_0000
        &&& self.columns * self.rows <= 0x7fff_ffff
        &&& 0 <= self.shift_x <= 0x4000_0000
        &&& 0 <= self.virtual_columns <= 0x10_0000
    }

    /// The absolute offset of the cell in the top left corner, as a
    /// mathematical value.
    pub open spec fn spec_offset(&self) -> int {
        self.virtual_columns * self.y + self.x
    }

    /// The absolute offset range `[start, end)` of row `r` of the viewport,
    /// as mathematical values.
    pub open spec fn spec_row_range(&self, r: int) -> (int, int) {
        let start = (self.y + r) * self.virtual_columns + self.x;
        (start, start + self.columns)
    }

    /// The first column that is visible in the viewport.
    pub fn x(&self) -> (r: u64)
        requires
            self.wf(),
        ensures
            r == self.x,
    {
        self.x as u64
    }

    /// The first row that is visible in the viewport.
    pub fn y(&self) -> (r: u64)
        requires
            self.wf(),
        ensures
            r == self.y,
    {
        self.y as u64
    }

    /// The number of columns that (partially) fit in the viewport.
    pub fn columns(&self) -> (r: u64)
        requires
            self.wf(),
        ensures
            r == self.columns,
    {
        self.columns as u64
    }

    /// The number of rows that (partially) fit in the viewport.
    pub fn rows(&self) -> (r: u64)
        requires
            self.wf(),
        ensures
            r == self.rows,
    {
        self.rows as u64
    }

    /// The absolute offset of the byte in the top left corner of the viewport.
    pub fn offset(&self) -> (r: u64)
        requires
            self.wf(),
        ensures
            r == self.spec_offset(),
    {
        proof {
            assert(0 <= self.virtual_columns * self.y <= 0x10_0000 * 0x400_0000_0000)
                by (nonlinear_arith)
                requires
                    0 <= self.y <= 0x400_0000_0000,
                    0 <= self.virtual_columns <= 0x10_0000,
            ;
        }
        (self.virtual_columns * self.y + self.x) as u64
    }

    /// Total number of bytes that (partially) fit in the viewport.
    pub fn size(&self) -> (r: usize)
        requires
            self.wf(),
        ensures
            r == self.columns * self.rows,
    {
        proof {
            assert(0 <= self.columns * self.rows) by (nonlinear_arith)
                requires
                    0 <= self.columns,
                    0 <= self.rows,
            ;
        }
        (self.columns * self.rows) as usize
    }

    /// The absolute start and end (not inclusive) offsets of each row of the
    /// viewport, top to bottom. With `x = 2`, `y = 1`, `columns = 8` and
    /// `virtual_columns = 16` this yields `[18, 26)`, `[34, 42)`, and so on.
    pub fn iter_rows(&self) -> (r: Vec<(u64, u64)>)
        requires
            self.wf(),
        ensures
            r@.len() == self.rows,
            forall|i: int| 0 <= i < self.rows ==> (#[trigger] r@[i]).0 == self.spec_row_range(i).0
                && r@[i].1 == self.spec_row_range(i).1,
    {
        let mut out: Vec<(u64, u64)> = Vec::new();
        let mut row: i64 = 0;
        while row < self.rows
            invariant
                self.wf(),
                0 <= row <= self.rows,
                out@.len() == row,
                forall|i: int| 0 <= i < row ==> (#[trigger] out@[i]).0 == self.spec_row_range(i).0
                    && out@[i].1 == self.spec_row_range(i).1,
            decreases self.rows - row,
        {
            proof {
                assert(0 <= (self.y + row) * self.virtual_columns <= (0x400_0000_0000 + 0x10_0000)
                    * 0x10_0000) by (nonlinear_arith)
                    requires
                        0 <= self.y + row <= 0x400_0000_0000 + 0x10_0000,
                        0 <= self.virtual_columns <= 0x10_0000,
                ;
            }
            let start = (self.y + row) * self.virtual_columns + self.x;
            let end = start + self.columns;
            out.push((start as u64, end as u64));
            row = row + 1;
        }
        out
    }

    /// Whether, and if so at which column and row in the viewport, the
    /// absolute `offset` into the source is visible.
    pub fn contains(&self, offset: u64) -> (r: Option<(u64, u64)>)
        requires
            self.wf(),
            self.virtual_columns >= 1,
            offset <= 0x7fff_ffff_ffff_ffff,
        ensures
            ({
                let col = offset as int % self.virtual_columns as int;
                let row = offset as int / self.virtual_columns as int;
                if col < self.x || col >= self.x + self.columns || row < self.y || row >= self.y
                    + self.rows {
                    r is None
                } else {
                    r == Some(((col - self.x) as u64, (row - self.y) as u64))
                }
            }),
    {
        let col = offset as i64 % self.virtual_columns;
        let row = offset as i64 / self.virtual_columns;

        proof {
            assert(0 <= offset as int % (self.virtual_columns as int)
                && offset as int % (self.virtual_columns as int) < self.virtual_columns as int
                && 0 <= offset as int / (self.virtual_columns as int)) by (nonlinear_arith)
                requires
                    0 <= offset as int,
                    1 <= self.virtual_columns as int,
            ;
        }

        if col < self.x || col >= self.x + self.columns || row < self.y || row >= self.y
            + self.rows {
            None
        } else {
            Some(((col - self.x) as u64, (row - self.y) as u64))
        }
    }
}

impl Default for Viewport {
    /// An empty viewport at the origin of an empty grid.
    fn default() -> (r: Viewport)
        ensures
            r == (Viewport { x: 0, y: 0, columns: 0, rows: 0, shift_x: 0, virtual_columns: 0 }),
            r.wf(),
    {
        Viewport { x: 0, y: 0, columns: 0, rows: 0, shift_x: 0, virtual_columns: 0 }
    }
}

} // verus!
