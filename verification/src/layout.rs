//! Whole-pixel layout geometry: cell rectangles, pointer classification, and
//! the column/row capacity of the visible areas.
//!
//! The embedding shell computes its (possibly fractional) pixel layout from
//! font metrics and paddings, rounds it to whole pixels, and hands the
//! resulting rectangles and cell sizes to this module; everything the
//! interaction engine reads off the layout is then exact integer arithmetic.

use vstd::prelude::*;

use crate::selection::Side;

verus! {

/// A pixel-aligned rectangle.
#[derive(Clone, Copy, Debug, Eq, PartialEq, Structural)]
pub struct Rect {
    /// The x coordinate of the top-left corner.
    pub x: i64,
    /// The y coordinate of the top-left corner.
    pub y: i64,
    /// The width, never negative.
    pub width: i64,
    /// The height, never negative.
    pub height: i64,
}

impl Rect {
    /// Well-formedness: coordinates and sizes are sane pixel quantities.
    pub open spec fn wf(&self) -> bool {
        &&& -0x4000_0000 <= self.x <= 0x4000_0000
        &&& -0x4000_0000 <= self.y <= 0x4000_0000
        &&& 0 <= self.width <= 0x4000_0000
        &&& 0 <= self.height <= 0x4000_0000
    }

    /// Whether the point lies inside the rectangle; the right and bottom
    /// edges are outside.
    pub open spec fn spec_contains(&self, px: int, py: int) -> bool {
        self.x <= px && px < self.x + self.width && self.y <= py && py < self.y + self.height
    }

    /// Whether the point lies inside the rectangle; the right and bottom
    /// edges are outside.
    pub fn contains(&self, px: i64, py: i64) -> (r: bool)
        requires
            self.wf(),
            -0x4000_0000_0000 <= px <= 0x4000_0000_0000,
            -0x4000_0000_0000 <= py <= 0x4000_0000_0000,
        ensures
            r == self.spec_contains(px as int, py as int),
    {
        self.x <= px && px < self.x + self.width && self.y <= py && py < self.y + self.height
    }
}

/// The location of a cell relative to the current viewport, and a side
/// within that cell. The cell in the top left corner has column 0 and row 0.
#[derive(Clone, Copy, Debug, Eq, PartialEq, Structural)]
pub struct Cell {
    /// Column in the viewport.
    pub col: i64,
    /// Row in the viewport.
    pub row: i64,
    /// The side of the cell that was interacted with: left of center or
    /// right of center, or `Neither` when no side was chosen.
    pub side: Side,
}

impl Cell {
    /// Creates a new `Cell`.
    pub fn new(col: i64, row: i64, side: Side) -> (r: Cell)
        ensures
            r == (Cell { col, row, side }),
    {
        Cell { col, row, side }
    }
}

/// A logical location within the viewer's byte or char area.
#[derive(Clone, Copy, Debug, Eq, PartialEq, Structural)]
pub enum DataLocation {
    /// A cell, with the side of it the pointer is on.
    Cell(Cell),
    /// The padding left of the cells, keyed by the row next to it.
    PaddingLeft(i64),
    /// The padding right of the cells, keyed by the row next to it.
    PaddingRight(i64),
    /// The padding above the cells, keyed by the column under it.
    PaddingTop(i64),
    /// The padding below the cells, keyed by the column above it.
    PaddingBottom(i64),
    /// The top left corner of the padding.
    CornerTopLeft,
    /// The top right corner of the padding.
    CornerTopRight,
    /// The bottom left corner of the padding.
    CornerBottomLeft,
    /// The bottom right corner of the padding.
    CornerBottomRight,
}

/// The row index of the last visible row: one less than the row count,
/// kept at 0 for an empty viewport.
pub open spec fn spec_last_row(rows: int) -> int {
    if rows >= 1 {
        rows - 1
    } else {
        0
    }
}

/// The cell a pointer location in a data area approximates: a direct hit is
/// itself; the left and right paddings snap to the first and last column of
/// their row; the top padding and top corners snap to the top left cell; the
/// bottom padding snaps to its column on the last row, right side, and the
/// bottom corners to the last row's first column, right side.
pub open spec fn spec_approximate_data_cell(loc: DataLocation, cols: int, rows: int) -> Cell {
    match loc {
        DataLocation::Cell(cell) => cell,
        DataLocation::PaddingLeft(row) => Cell { col: 0, row: row as i64, side: Side::Left },
        DataLocation::PaddingRight(row) => Cell {
            col: (cols - 1) as i64,
            row: row as i64,
            side: Side::Right,
        },
        DataLocation::PaddingTop(_) => Cell { col: 0, row: 0, side: Side::Left },
        DataLocation::CornerTopLeft => Cell { col: 0, row: 0, side: Side::Left },
        DataLocation::CornerTopRight => Cell { col: 0, row: 0, side: Side::Left },
        DataLocation::PaddingBottom(col) => Cell {
            col,
            row: spec_last_row(rows) as i64,
            side: Side::Right,
        },
        DataLocation::CornerBottomLeft => Cell {
            col: 0,
            row: spec_last_row(rows) as i64,
            side: Side::Right,
        },
        DataLocation::CornerBottomRight => Cell {
            col: 0,
            row: spec_last_row(rows) as i64,
            side: Side::Right,
        },
    }
}

impl DataLocation {
    /// Decides what cell should count as interacted with, so that the cursor
    /// can be put there; clicks in the padding approximate to a nearby edge
    /// cell. The returned cell is relative to the current viewport.
    pub fn approximate_cell(&self, cols: i64, rows: i64) -> (r: Cell)
        requires
            i64::MIN < cols,
        ensures
            r == spec_approximate_data_cell(*self, cols as int, rows as int),
    {
        let last_row: i64 = if rows >= 1 {
            rows - 1
        } else {
            0
        };
        match self {
            DataLocation::Cell(location) => *location,
            DataLocation::PaddingLeft(row) => Cell::new(0, *row, Side::Left),
            DataLocation::PaddingRight(row) => Cell::new(cols - 1, *row, Side::Right),
            DataLocation::PaddingTop(_)
            | DataLocation::CornerTopLeft
            | DataLocation::CornerTopRight => Cell::new(0, 0, Side::Left),
            DataLocation::PaddingBottom(col) => Cell::new(*col, last_row, Side::Right),
            DataLocation::CornerBottomLeft
            | DataLocation::CornerBottomRight => Cell::new(0, last_row, Side::Right),
        }
    }

    /// The column this location applies to; no approximation is done, only
    /// strict matches are returned.
    pub fn column(&self) -> (r: Option<i64>)
        ensures
            r == match *self {
                DataLocation::Cell(cell) => Some(cell.col),
                DataLocation::PaddingTop(col) => Some(col),
                DataLocation::PaddingBottom(col) => Some(col),
                _ => Option::<i64>::None,
            },
    {
        match self {
            DataLocation::Cell(location) => Some(location.col),
            DataLocation::PaddingTop(col) | DataLocation::PaddingBottom(col) => Some(*col),
            DataLocation::PaddingLeft(_)
            | DataLocation::CornerTopLeft
            | DataLocation::CornerTopRight
            | DataLocation::PaddingRight(_)
            | DataLocation::CornerBottomLeft
            | DataLocation::CornerBottomRight => None,
        }
    }

    /// The row this location applies to; no approximation is done, only
    /// strict matches are returned.
    pub fn row(&self) -> (r: Option<i64>)
        ensures
            r == match *self {
                DataLocation::Cell(cell) => Some(cell.row),
                DataLocation::PaddingLeft(row) => Some(row),
                DataLocation::PaddingRight(row) => Some(row),
                _ => Option::<i64>::None,
            },
    {
        match self {
            DataLocation::Cell(location) => Some(location.row),
            DataLocation::PaddingLeft(row) | DataLocation::PaddingRight(row) => Some(*row),
            DataLocation::PaddingTop(_)
            | DataLocation::CornerTopLeft
            | DataLocation::CornerTopRight
            | DataLocation::PaddingBottom(_)
            | DataLocation::CornerBottomLeft
            | DataLocation::CornerBottomRight => None,
        }
    }
}

/// A logical location within the viewer.
#[derive(Clone, Copy, Debug, Eq, PartialEq, Structural)]
pub enum Location {
    /// The header above the byte area.
    ByteHeader,
    /// The header above the char area.
    CharHeader,
    /// The address area.
    AddressArea,
    /// The byte area, and where in it.
    ByteArea(DataLocation),
    /// The char area, and where in it.
    CharArea(DataLocation),
    /// None of the viewer's regions.
    Other,
}

impl Location {
    /// Decides what cell should count as interacted with, if any; locations
    /// outside the two data areas approximate to no cell at all.
    pub fn approximate_cell(&self, cols: i64, rows: i64) -> (r: Option<Cell>)
        requires
            i64::MIN < cols,
        ensures
            r == match *self {
                Location::ByteArea(loc) => Some(
                    spec_approximate_data_cell(loc, cols as int, rows as int),
                ),
                Location::CharArea(loc) => Some(
                    spec_approximate_data_cell(loc, cols as int, rows as int),
                ),
                _ => Option::<Cell>::None,
            },
    {
        match self {
            Location::ByteArea(location) | Location::CharArea(location) => Some(
                location.approximate_cell(cols, rows),
            ),
            Location::ByteHeader | Location::CharHeader | Location::AddressArea
            | Location::Other => None,
        }
    }

    /// The column this location applies to, with no approximation.
    pub fn column(&self) -> (r: Option<i64>)
        ensures
            r == match *self {
                Location::ByteArea(loc) => match loc {
                    DataLocation::Cell(cell) => Some(cell.col),
                    DataLocation::PaddingTop(col) => Some(col),
                    DataLocation::PaddingBottom(col) => Some(col),
                    _ => Option::<i64>::None,
                },
                Location::CharArea(loc) => match loc {
                    DataLocation::Cell(cell) => Some(cell.col),
                    DataLocation::PaddingTop(col) => Some(col),
                    DataLocation::PaddingBottom(col) => Some(col),
                    _ => Option::<i64>::None,
                },
                _ => Option::<i64>::None,
            },
    {
        match self {
            Location::ByteArea(location) | Location::CharArea(location) => location.column(),
            Location::ByteHeader | Location::CharHeader | Location::AddressArea
            | Location::Other => None,
        }
    }

    /// The row this location applies to, with no approximation.
    pub fn row(&self) -> (r: Option<i64>)
        ensures
            r == match *self {
                Location::ByteArea(loc) => match loc {
                    DataLocation::Cell(cell) => Some(cell.row),
                    DataLocation::PaddingLeft(row) => Some(row),
                    DataLocation::PaddingRight(row) => Some(row),
                    _ => Option::<i64>::None,
                },
                Location::CharArea(loc) => match loc {
                    DataLocation::Cell(cell) => Some(cell.row),
                    DataLocation::PaddingLeft(row) => Some(row),
                    DataLocation::PaddingRight(row) => Some(row),
                    _ => Option::<i64>::None,
                },
                _ => Option::<i64>::None,
            },
    {
        match self {
            Location::ByteArea(location) | Location::CharArea(location) => location.row(),
            Location::ByteHeader | Location::CharHeader | Location::AddressArea
            | Location::Other => None,
        }
    }
}

/// The numeric payloads of a data-area location are sane, non-negative
/// cell coordinates, as pointer classification produces them.
pub open spec fn spec_data_location_bounded(loc: DataLocation) -> bool {
    match loc {
        DataLocation::Cell(cell) => 0 <= cell.col <= 0x2_0000_0000 && 0 <= cell.row
            <= 0x2_0000_0000,
        DataLocation::PaddingLeft(row) => 0 <= row <= 0x2_0000_0000,
        DataLocation::PaddingRight(row) => 0 <= row <= 0x2_0000_0000,
        DataLocation::PaddingTop(col) => 0 <= col <= 0x2_0000_0000,
        DataLocation::PaddingBottom(col) => 0 <= col <= 0x2_0000_0000,
        _ => true,
    }
}

/// The numeric payloads of a location are sane cell coordinates.
pub open spec fn spec_location_bounded(location: Location) -> bool {
    match location {
        Location::ByteArea(loc) => spec_data_location_bounded(loc),
        Location::CharArea(loc) => spec_data_location_bounded(loc),
        _ => true,
    }
}

/// The whole-pixel layout of the viewer: the named regions, the cell sizes
/// of the two data areas, and the sub-cell shifts.
#[derive(Clone, Copy, Debug, Eq, PartialEq, Structural)]
pub struct Layout {
    /// The size of the source in bytes.
    pub source_size: i64,
    /// The width of the virtual grid, in cells.
    pub virtual_columns: i64,
    /// The width of one byte cell, paddings included.
    pub byte_cell_width: i64,
    /// The width of one char cell, paddings included.
    pub char_cell_width: i64,
    /// The height of each row.
    pub row_height: i64,
    /// How far the byte area is shifted left beyond its first column, in
    /// pixels; 0 when scrolling happens per whole cell.
    pub byte_shift: i64,
    /// The same shift expressed in char-cell pixels.
    pub char_shift: i64,
    /// The header above the byte area.
    pub byte_area_header: Rect,
    /// The header above the char area.
    pub char_area_header: Rect,
    /// The address area.
    pub address_area: Rect,
    /// The byte area, paddings included.
    pub byte_area: Rect,
    /// The char area, paddings included.
    pub char_area: Rect,
    /// The byte area without its paddings: where the cells are.
    pub byte_area_content: Rect,
    /// The char area without its paddings: where the cells are.
    pub char_area_content: Rect,
}

/// Where in a data area a pixel point lies. The area is given by its content
/// rectangle (the cells), the cell width, the row height, and the sub-cell
/// shift. A point in the content rectangle is a cell hit, with the side
/// telling which half of the cell it fell in; a point outside it is one of
/// the four paddings or four corners around it.
pub open spec fn spec_data_location(
    content: Rect,
    cell_width: int,
    row_height: int,
    shift: int,
    px: int,
    py: int,
) -> DataLocation {
    if content.spec_contains(px, py) {
        let rel_x = px - (content.x - shift);
        let cell_col = rel_x / cell_width;
        let in_cell_offset = rel_x % cell_width;
        let side = if 2 * in_cell_offset < cell_width {
            Side::Left
        } else {
            Side::Right
        };
        let cell_row = (py - content.y) / row_height;
        DataLocation::Cell(Cell { col: cell_col as i64, row: cell_row as i64, side })
    } else if py < content.y {
        if px < content.x {
            DataLocation::CornerTopLeft
        } else if px < content.x + content.width {
            DataLocation::PaddingTop(((px - content.x) / cell_width) as i64)
        } else {
            DataLocation::CornerTopRight
        }
    } else if py > content.y + content.height {
        if px < content.x {
            DataLocation::CornerBottomLeft
        } else if px < content.x + content.width {
            DataLocation::PaddingBottom(((px - content.x) / cell_width) as i64)
        } else {
            DataLocation::CornerBottomRight
        }
    } else if px < content.x {
        DataLocation::PaddingLeft(((py - content.y) / row_height) as i64)
    } else {
        DataLocation::PaddingRight(((py - content.y) / row_height) as i64)
    }
}

impl Layout {
    /// Well-formedness: positive cell sizes, shifts inside one cell, sane
    /// rectangles, a grid that is at least one column wide, and screen-sized
    /// column and row capacities.
    pub open spec fn wf(&self) -> bool {
        &&& 0 <= self.source_size <= 0x4000_0000_0000_0000
        &&& 1 <= self.virtual_columns <= 0x10_0000
        &&& 1 <= self.byte_cell_width <= 0x4000_0000
        &&& 1 <= self.char_cell_width <= 0x4000_0000
        &&& 1 <= self.row_height <= 0x4000_0000
        &&& 0 <= self.byte_shift < self.byte_cell_width
        &&& 0 <= self.char_shift < self.char_cell_width
        &&& self.byte_area_header.wf()
        &&& self.char_area_header.wf()
        &&& self.address_area.wf()
        &&& self.byte_area.wf()
        &&& self.char_area.wf()
        &&& self.byte_area_content.wf()
        &&& self.char_area_content.wf()
        &&& (self.byte_area_content.width + self.byte_cell_width - 1) / (
        self.byte_cell_width as int) <= 0x7fff
        &&& (self.byte_area_content.height + self.row_height - 1) / (self.row_height as int)
            <= 0xffff
        &&& (self.source_size + self.virtual_columns - 1) / (self.virtual_columns as int)
            <= 0x400_0000_0000
    }

    /// The height of each row.
    pub fn row_height(&self) -> (r: i64)
        ensures
            r == self.row_height,
    {
        self.row_height
    }

    /// The byte area without its paddings.
    pub fn byte_area_content(&self) -> (r: Rect)
        ensures
            r == self.byte_area_content,
    {
        self.byte_area_content
    }

    /// The char area without its paddings.
    pub fn char_area_content(&self) -> (r: Rect)
        ensures
            r == self.char_area_content,
    {
        self.char_area_content
    }

    /// The x position of the byte cell in column `col` of the viewport.
    pub fn byte_cell_x_offset(&self, col: i64) -> (r: i64)
        requires
            self.wf(),
            -0x10_0000 <= col <= 0x10_0000,
        ensures
            r == self.byte_area_content.x + col * self.byte_cell_width - self.byte_shift,
    {
        proof {
            assert(-0x10_0000 * 0x4000_0000 <= col * self.byte_cell_width <= 0x10_0000
                * 0x4000_0000) by (nonlinear_arith)
                requires
                    -0x10_0000 <= col <= 0x10_0000,
                    1 <= self.byte_cell_width <= 0x4000_0000,
            ;
        }
        self.byte_area_content.x + col * self.byte_cell_width - self.byte_shift
    }

    /// The x position of the char cell in column `col` of the viewport.
    pub fn char_cell_x_offset(&self, col: i64) -> (r: i64)
        requires
            self.wf(),
            -0x10_0000 <= col <= 0x10_0000,
        ensures
            r == self.char_area_content.x + col * self.char_cell_width - self.char_shift,
    {
        proof {
            assert(-0x10_0000 * 0x4000_0000 <= col * self.char_cell_width <= 0x10_0000
                * 0x4000_0000) by (nonlinear_arith)
                requires
                    -0x10_0000 <= col <= 0x10_0000,
                    1 <= self.char_cell_width <= 0x4000_0000,
            ;
        }
        self.char_area_content.x + col * self.char_cell_width - self.char_shift
    }

    /// The y position of the cells in row `row` of the viewport; the
    /// address, byte and char area rows all share it.
    pub fn cell_y_offset(&self, row: i64) -> (r: i64)
        requires
            self.wf(),
            -0x10_0000 <= row <= 0x10_0000,
        ensures
            r == self.byte_area_content.y + row * self.row_height,
    {
        proof {
            assert(-0x10_0000 * 0x4000_0000 <= row * self.row_height <= 0x10_0000 * 0x4000_0000)
                by (nonlinear_arith)
                requires
                    -0x10_0000 <= row <= 0x10_0000,
                    1 <= self.row_height <= 0x4000_0000,
            ;
        }
        self.byte_area_content.y + row * self.row_height
    }

    /// The bounding box of the byte cell at `col`, `row` of the viewport.
    pub fn byte_cell(&self, col: i64, row: i64) -> (r: Rect)
        requires
            self.wf(),
            -0x10_0000 <= col <= 0x10_0000,
            -0x10_0000 <= row <= 0x10_0000,
        ensures
            r == (Rect {
                x: (self.byte_area_content.x + col * self.byte_cell_width - self.byte_shift) as i64,
                y: (self.byte_area_content.y + row * self.row_height) as i64,
                width: self.byte_cell_width,
                height: self.row_height,
            }),
    {
        Rect {
            x: self.byte_cell_x_offset(col),
            y: self.cell_y_offset(row),
            width: self.byte_cell_width,
            height: self.row_height,
        }
    }

    /// The bounding box of the char cell at `col`, `row` of the viewport.
    pub fn char_cell(&self, col: i64, row: i64) -> (r: Rect)
        requires
            self.wf(),
            -0x10_0000 <= col <= 0x10_0000,
            -0x10_0000 <= row <= 0x10_0000,
        ensures
            r == (Rect {
                x: (self.char_area_content.x + col * self.char_cell_width - self.char_shift) as i64,
                y: (self.byte_area_content.y + row * self.row_height) as i64,
                width: self.char_cell_width,
                height: self.row_height,
            }),
    {
        Rect {
            x: self.char_cell_x_offset(col),
            y: self.cell_y_offset(row),
            width: self.char_cell_width,
            height: self.row_height,
        }
    }

    /// The maximum number of columns that could partially fit in the
    /// viewport, regardless of the current offsets.
    pub fn viewport_column_count_ceil(&self) -> (r: i64)
        requires
            self.wf(),
        ensures
            r == (self.byte_area_content.width + self.byte_cell_width - 1) / (
            self.byte_cell_width as int),
            0 <= r <= self.byte_area_content.width,
    {
        proof {
            lemma_ceil_div_bounds(
                self.byte_area_content.width as int,
                self.byte_cell_width as int,
            );
        }
        (self.byte_area_content.width + self.byte_cell_width - 1) / self.byte_cell_width
    }

    /// The number of columns that completely fit in the viewport, regardless
    /// of the current offsets, capped at the virtual column count once
    /// virtually all of them fit.
    pub fn viewport_column_count_floor(&self) -> (r: i64)
        requires
            self.wf(),
        ensures
            r == spec_count_floor(
                self.byte_area_content.width as int,
                self.byte_cell_width as int,
                self.virtual_columns as int,
            ),
            0 <= r <= self.virtual_columns,
    {
        proof {
            lemma_floor_div_bounds(
                self.byte_area_content.width as int,
                self.byte_cell_width as int,
            );
        }
        let count = self.byte_area_content.width / self.byte_cell_width;
        if count >= self.virtual_columns {
            self.virtual_columns
        } else {
            count
        }
    }

    /// The maximum number of rows that could partially fit in the viewport.
    pub fn viewport_row_count_ceil(&self) -> (r: i64)
        requires
            self.wf(),
        ensures
            r == (self.byte_area_content.height + self.row_height - 1) / (self.row_height as int),
            0 <= r <= self.byte_area_content.height,
    {
        proof {
            lemma_ceil_div_bounds(self.byte_area_content.height as int, self.row_height as int);
        }
        (self.byte_area_content.height + self.row_height - 1) / self.row_height
    }

    /// The number of rows that completely fit in the viewport, capped at the
    /// number of virtual rows once virtually all of them fit.
    pub fn viewport_row_count_floor(&self) -> (r: i64)
        requires
            self.wf(),
        ensures
            r == spec_count_floor(
                self.byte_area_content.height as int,
                self.row_height as int,
                spec_virtual_rows_ceil(self.source_size as int, self.virtual_columns as int),
            ),
            0 <= r,
            r <= self.byte_area_content.height || r <= spec_virtual_rows_ceil(
                self.source_size as int,
                self.virtual_columns as int,
            ),
    {
        proof {
            lemma_floor_div_bounds(self.byte_area_content.height as int, self.row_height as int);
        }
        let count = self.byte_area_content.height / self.row_height;
        let virtual_rows = self.virtual_rows_ceil();
        if count >= virtual_rows {
            virtual_rows
        } else {
            count
        }
    }

    /// The number of rows the whole source occupies in the virtual grid,
    /// the last partial row included.
    pub fn virtual_rows_ceil(&self) -> (r: i64)
        requires
            self.wf(),
        ensures
            r == spec_virtual_rows_ceil(self.source_size as int, self.virtual_columns as int),
            0 <= r <= self.source_size,
    {
        proof {
            lemma_ceil_div_bounds(self.source_size as int, self.virtual_columns as int);
        }
        (self.source_size + self.virtual_columns - 1) / self.virtual_columns
    }

    /// The highest first-column offset the viewport should scroll to.
    pub fn max_viewport_x_offset(&self) -> (r: i64)
        requires
            self.wf(),
        ensures
            r == spec_max_of(
                self.virtual_columns - spec_count_floor(
                    self.byte_area_content.width as int,
                    self.byte_cell_width as int,
                    self.virtual_columns as int,
                ),
                0,
            ),
            0 <= r <= self.virtual_columns,
    {
        let d = self.virtual_columns - self.viewport_column_count_floor();
        if d > 0 {
            d
        } else {
            0
        }
    }

    /// The highest first-row offset the viewport should scroll to.
    pub fn max_viewport_y_offset(&self) -> (r: i64)
        requires
            self.wf(),
        ensures
            r == spec_max_of(
                spec_virtual_rows_ceil(self.source_size as int, self.virtual_columns as int)
                    - spec_count_floor(
                    self.byte_area_content.height as int,
                    self.row_height as int,
                    spec_virtual_rows_ceil(self.source_size as int, self.virtual_columns as int),
                ),
                0,
            ),
            0 <= r,
    {
        let d = self.virtual_rows_ceil() - self.viewport_row_count_floor();
        if d > 0 {
            d
        } else {
            0
        }
    }

    /// Where in the viewer a pixel point lies: one of the headers, the
    /// address area, a place in the byte or char area, or outside them all.
    pub fn pointer_location(&self, px: i64, py: i64) -> (r: Location)
        requires
            self.wf(),
            -0x4000_0000 <= px <= 0x4000_0000,
            -0x4000_0000 <= py <= 0x4000_0000,
        ensures
            r == spec_pointer_location(*self, px as int, py as int),
            spec_location_bounded(r),
    {
        if self.byte_area_header.contains(px, py) {
            Location::ByteHeader
        } else if self.char_area_header.contains(px, py) {
            Location::CharHeader
        } else if self.address_area.contains(px, py) {
            Location::AddressArea
        } else if self.byte_area.contains(px, py) {
            Location::ByteArea(self.pointer_location_in_byte_area(px, py))
        } else if self.char_area.contains(px, py) {
            Location::CharArea(self.pointer_location_in_char_area(px, py))
        } else {
            Location::Other
        }
    }

    /// Where in the byte area a pixel point lies, assuming it is in that
    /// area.
    pub fn pointer_location_in_byte_area(&self, px: i64, py: i64) -> (r: DataLocation)
        requires
            self.wf(),
            -0x4000_0000 <= px <= 0x4000_0000,
            -0x4000_0000 <= py <= 0x4000_0000,
        ensures
            spec_data_location_bounded(r),
            r == spec_data_location(
                self.byte_area_content,
                self.byte_cell_width as int,
                self.row_height as int,
                self.byte_shift as int,
                px as int,
                py as int,
            ),
    {
        pointer_location_in_data_area(
            px,
            py,
            self.byte_area_content,
            self.byte_cell_width,
            self.byte_shift,
            self.row_height,
        )
    }

    /// Where in the char area a pixel point lies, assuming it is in that
    /// area.
    pub fn pointer_location_in_char_area(&self, px: i64, py: i64) -> (r: DataLocation)
        requires
            self.wf(),
            -0x4000_0000 <= px <= 0x4000_0000,
            -0x4000_0000 <= py <= 0x4000_0000,
        ensures
            spec_data_location_bounded(r),
            r == spec_data_location(
                self.char_area_content,
                self.char_cell_width as int,
                self.row_height as int,
                self.char_shift as int,
                px as int,
                py as int,
            ),
    {
        pointer_location_in_data_area(
            px,
            py,
            self.char_area_content,
            self.char_cell_width,
            self.char_shift,
            self.row_height,
        )
    }
}

/// Where in the viewer a pixel point lies; the regions are tested in the
/// order header, address area, byte area, char area.
pub open spec fn spec_pointer_location(layout: Layout, px: int, py: int) -> Location {
    if layout.byte_area_header.spec_contains(px, py) {
        Location::ByteHeader
    } else if layout.char_area_header.spec_contains(px, py) {
        Location::CharHeader
    } else if layout.address_area.spec_contains(px, py) {
        Location::AddressArea
    } else if layout.byte_area.spec_contains(px, py) {
        Location::ByteArea(
            spec_data_location(
                layout.byte_area_content,
                layout.byte_cell_width as int,
                layout.row_height as int,
                layout.byte_shift as int,
                px,
                py,
            ),
        )
    } else if layout.char_area.spec_contains(px, py) {
        Location::CharArea(
            spec_data_location(
                layout.char_area_content,
                layout.char_cell_width as int,
                layout.row_height as int,
                layout.char_shift as int,
                px,
                py,
            ),
        )
    } else {
        Location::Other
    }
}

/// The larger of two values.
pub open spec fn spec_max_of(a: int, b: int) -> int {
    if a > b {
        a
    } else {
        b
    }
}

/// How many cells of size `cell` completely fit in `length` pixels, capped
/// at `limit` once the count reaches it.
pub open spec fn spec_count_floor(length: int, cell: int, limit: int) -> int {
    if length / cell >= limit {
        limit
    } else {
        length / cell
    }
}

/// The number of grid rows `size` bytes occupy at `columns` bytes per row,
/// the last partial row included.
pub open spec fn spec_virtual_rows_ceil(size: int, columns: int) -> int {
    (size + columns - 1) / columns
}

/// Floor division of a non-negative length by a positive cell size stays
/// between 0 and the length.
proof fn lemma_floor_div_bounds(length: int, cell: int)
    requires
        0 <= length,
        1 <= cell,
    ensures
        0 <= length / cell <= length,
{
    assert(0 <= length / cell <= length) by (nonlinear_arith)
        requires
            0 <= length,
            1 <= cell,
    ;
}

/// Ceiling division of a non-negative length by a positive cell size stays
/// between 0 and the length.
proof fn lemma_ceil_div_bounds(length: int, cell: int)
    requires
        0 <= length,
        1 <= cell,
    ensures
        0 <= (length + cell - 1) / cell <= length,
{
    assert(0 <= (length + cell - 1) / cell <= length) by (nonlinear_arith)
        requires
            0 <= length,
            1 <= cell,
    ;
}

/// Where in a data area a pixel point lies; see [`spec_data_location`].
fn pointer_location_in_data_area(
    px: i64,
    py: i64,
    content: Rect,
    cell_width: i64,
    shift: i64,
    row_height: i64,
) -> (r: DataLocation)
    requires
        content.wf(),
        1 <= cell_width <= 0x4000_0000,
        1 <= row_height <= 0x4000_0000,
        0 <= shift < cell_width,
        -0x4000_0000 <= px <= 0x4000_0000,
        -0x4000_0000 <= py <= 0x4000_0000,
    ensures
        spec_data_location_bounded(r),
        r == spec_data_location(
            content,
            cell_width as int,
            row_height as int,
            shift as int,
            px as int,
            py as int,
        ),
{
    if content.contains(px, py) {
        let rel_x = px - (content.x - shift);
        let cell_col = rel_x / cell_width;
        let in_cell_offset = rel_x % cell_width;
        proof {
            assert(0 <= (rel_x as int) % (cell_width as int) < cell_width as int && 0 <= (
            rel_x as int) / (cell_width as int)) by (nonlinear_arith)
                requires
                    0 <= rel_x as int,
                    1 <= cell_width as int,
            ;
        }
        let side = if 2 * in_cell_offset < cell_width {
            Side::Left
        } else {
            Side::Right
        };
        let cell_row = (py - content.y) / row_height;
        return DataLocation::Cell(Cell::new(cell_col, cell_row, side));
    }
    if py < content.y {
        if px < content.x {
            return DataLocation::CornerTopLeft;
        } else if px < content.x + content.width {
            return DataLocation::PaddingTop((px - content.x) / cell_width);
        } else {
            return DataLocation::CornerTopRight;
        }
    }
    if py > content.y + content.height {
        if px < content.x {
            return DataLocation::CornerBottomLeft;
        } else if px < content.x + content.width {
            return DataLocation::PaddingBottom((px - content.x) / cell_width);
        } else {
            return DataLocation::CornerBottomRight;
        }
    }
    if px < content.x {
        return DataLocation::PaddingLeft((py - content.y) / row_height);
    }
    DataLocation::PaddingRight((py - content.y) / row_height)
}

/// Translating a visible cell to its pixel rectangle and classifying the
/// rectangle's center point recovers the cell: for any column and row whose
/// cell center lies inside the content rectangle, the pointer location at
/// that center is a cell hit with exactly that column and row.
pub proof fn lemma_cell_pixel_round_trip(
    content: Rect,
    cell_width: int,
    row_height: int,
    shift: int,
    col: int,
    row: int,
)
    requires
        1 <= cell_width,
        1 <= row_height,
        0 <= shift < cell_width,
        0 <= col <= 0x10_0000,
        0 <= row <= 0x10_0000,
        ({
            let center_x = content.x - shift + col * cell_width + cell_width / 2;
            let center_y = content.y + row * row_height + row_height / 2;
            content.spec_contains(center_x, center_y)
        }),
    ensures
        ({
            let center_x = content.x - shift + col * cell_width + cell_width / 2;
            let center_y = content.y + row * row_height + row_height / 2;
            spec_data_location(content, cell_width, row_height, shift, center_x, center_y)
                == DataLocation::Cell(
                Cell {
                    col: col as i64,
                    row: row as i64,
                    side: if 2 * (cell_width / 2) < cell_width {
                        Side::Left
                    } else {
                        Side::Right
                    },
                },
            )
        }),
{
    let center_x = content.x - shift + col * cell_width + cell_width / 2;
    let center_y = content.y + row * row_height + row_height / 2;
    let rel_x = center_x - (content.x - shift);
    assert(rel_x == col * cell_width + cell_width / 2);
    assert(0 <= cell_width / 2 < cell_width);
    vstd::arithmetic::div_mod::lemma_fundamental_div_mod_converse(
        rel_x,
        cell_width,
        col,
        cell_width / 2,
    );
    let rel_y = center_y - content.y;
    assert(rel_y == row * row_height + row_height / 2);
    assert(0 <= row_height / 2 < row_height);
    vstd::arithmetic::div_mod::lemma_fundamental_div_mod_converse(
        rel_y,
        row_height,
        row,
        row_height / 2,
    );
}

/// The x coordinate of the center of the byte cell at `col` of the
/// viewport.
pub open spec fn spec_byte_cell_center_x(layout: Layout, col: int) -> int {
    layout.byte_area_content.x - layout.byte_shift + col * layout.byte_cell_width
        + layout.byte_cell_width / 2
}

/// The y coordinate of the center of the cells in row `row` of the
/// viewport.
pub open spec fn spec_cell_center_y(layout: Layout, row: int) -> int {
    layout.byte_area_content.y + row * layout.row_height + layout.row_height / 2
}

/// The full cell-to-pixel-to-cell round trip: for a visible byte cell,
/// classifying the pointer at the center of the cell's rectangle through
/// the whole region order (headers, address area, byte area) recovers the
/// cell's column and row. Visibility here means the center lies inside
/// both the byte area and its content rectangle; since the layout does not
/// itself state that the regions are disjoint, the premises also say that
/// the center lies in none of the regions tested earlier.
pub proof fn lemma_pointer_location_round_trip(layout: Layout, col: int, row: int)
    requires
        layout.wf(),
        0 <= col <= 0x10_0000,
        0 <= row <= 0x10_0000,
        ({
            let center_x = spec_byte_cell_center_x(layout, col);
            let center_y = spec_cell_center_y(layout, row);
            &&& layout.byte_area_content.spec_contains(center_x, center_y)
            &&& layout.byte_area.spec_contains(center_x, center_y)
            &&& !layout.byte_area_header.spec_contains(center_x, center_y)
            &&& !layout.char_area_header.spec_contains(center_x, center_y)
            &&& !layout.address_area.spec_contains(center_x, center_y)
        }),
    ensures
        ({
            let center_x = spec_byte_cell_center_x(layout, col);
            let center_y = spec_cell_center_y(layout, row);
            spec_pointer_location(layout, center_x, center_y) == Location::ByteArea(
                DataLocation::Cell(
                    Cell {
                        col: col as i64,
                        row: row as i64,
                        side: if 2 * (layout.byte_cell_width / 2) < layout.byte_cell_width {
                            Side::Left
                        } else {
                            Side::Right
                        },
                    },
                ),
            )
        }),
{
    lemma_cell_pixel_round_trip(
        layout.byte_area_content,
        layout.byte_cell_width as int,
        layout.row_height as int,
        layout.byte_shift as int,
        col,
        row,
    );
}

} // verus!
