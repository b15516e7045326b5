//! The viewer engine: cursor movement, viewport creation and implicit
//! navigation, scroll-result handling, and the pointer/keyboard interaction
//! state machine. The embedding widget shell translates toolkit events into
//! the plain values these functions take, and performs the intents they
//! return.

use vstd::prelude::*;

use crate::layout::{Cell, Layout, Location};
use crate::scroll;
use crate::selection::{Index, Selection, Side};
use crate::viewport::Viewport;

verus! {

/// A fixed place in the viewport that aligned navigation keeps the cursor at.
#[derive(Clone, Copy, Debug, Eq, PartialEq, Structural)]
pub enum Alignment {
    /// The start of the viewport: left, or top.
    Start,
    /// The center of the viewport.
    Center,
    /// The end of the viewport: right, or bottom.
    End,
}

/// How movement of the cursor affects the viewport.
#[derive(Clone, Copy, Debug, Eq, PartialEq, Structural)]
pub enum Navigation {
    /// The viewport moves as little as possible while keeping the new cursor
    /// position in view: not at all if the cursor is already visible, else
    /// just far enough.
    Lazy,
    /// The cursor is always brought to a fixed place in the viewport.
    Aligned(Alignment),
}

/// The edge a lazy scroll aligns to when the cursor has to be brought into
/// view: moving left or up prefers the start of the viewport, moving right
/// or down its end.
#[derive(Clone, Copy, Debug, Eq, PartialEq, Structural)]
pub enum LazyAlignment {
    /// Align to the start of the viewport.
    Start,
    /// Align to the end of the viewport.
    End,
}

/// One axis' scrolling intent of an implicit navigation.
#[derive(Clone, Copy, Debug, Eq, PartialEq, Structural)]
pub enum Scroll {
    /// Move only if the target is out of view, aligning to the given edge.
    Lazy(LazyAlignment),
    /// Always bring the target to the given alignment.
    Aligned(Alignment),
}

/// Horizontal scroll granularity: whole cells, or single pixels.
#[derive(Clone, Copy, Debug, Eq, PartialEq, Structural)]
pub enum Step {
    /// Scroll by whole cells.
    Cell,
    /// Scroll by pixels, shifting the cells by fractions of a cell.
    Pixel,
}

impl Default for Step {
    /// Whole-cell scrolling.
    fn default() -> (r: Step)
        ensures
            r == Step::Cell,
    {
        Step::Cell
    }
}

/// How the horizontal extent of the two data areas is divided when the
/// available width does not fit both.
#[derive(Clone, Copy, Debug, Eq, PartialEq, Structural)]
pub enum HorizontalScrollStrategy {
    /// Both areas keep their requested proportions.
    Normal,
    /// The available width is split between the areas.
    Split,
}

/// The possible status of the viewer, used for styling only.
#[derive(Clone, Copy, Debug, Eq, PartialEq, Structural)]
pub enum Status {
    /// The viewer can be interacted with.
    Active,
    /// The viewer is being hovered.
    Hovered,
    /// The viewer is focused.
    Focused {
        /// Whether the viewer is hovered while focused.
        is_hovered: bool,
    },
    /// The viewer cannot be interacted with.
    Disabled,
}

/// A two-dimensional scroll offset in virtual steps.
#[derive(Clone, Copy, Debug, Eq, PartialEq, Structural)]
pub struct ScrollOffset {
    /// The horizontal offset.
    pub x: i64,
    /// The vertical offset.
    pub y: i64,
}

impl ScrollOffset {
    /// Creates a new `ScrollOffset`.
    pub fn new(x: i64, y: i64) -> (r: ScrollOffset)
        ensures
            r == (ScrollOffset { x, y }),
    {
        ScrollOffset { x, y }
    }
}

/// The pure configuration and cursor of one viewer instance: everything of
/// the widget that the interaction engine reads and writes.
#[derive(Clone, Copy, Debug, Eq, PartialEq, Structural)]
pub struct HexViewer {
    /// The cursor, as an absolute byte offset into the content.
    pub cursor: i64,
    /// The virtual number of columns of the byte-addressed grid.
    pub virtual_columns: i64,
    /// The horizontal scroll granularity.
    pub horizontal_step: Step,
    /// How implicit horizontal scrolls move the viewport.
    pub horizontal_navigation: Navigation,
    /// How implicit vertical scrolls move the viewport.
    pub vertical_navigation: Navigation,
}

impl HexViewer {
    /// Well-formedness: a non-negative cursor in 62-bit range, and a
    /// positive virtual column count of sane size.
    pub open spec fn wf(&self) -> bool {
        &&& 0 <= self.cursor <= 0x4000_0000_0000_0000
        &&& 1 <= self.virtual_columns <= 0x10_0000
    }

    /// Creates a new viewer engine with the cursor at the first byte, 32
    /// virtual columns, whole-cell horizontal stepping and lazy navigation
    /// along both axes.
    pub fn new() -> (r: HexViewer)
        ensures
            r == (HexViewer {
                cursor: 0,
                virtual_columns: 32,
                horizontal_step: Step::Cell,
                horizontal_navigation: Navigation::Lazy,
                vertical_navigation: Navigation::Lazy,
            }),
            r.wf(),
    {
        HexViewer {
            cursor: 0,
            virtual_columns: 32,
            horizontal_step: Step::default(),
            horizontal_navigation: Navigation::Lazy,
            vertical_navigation: Navigation::Lazy,
        }
    }

    /// Sets the cursor, as an absolute offset into the content.
    pub fn cursor(self, cursor: u64) -> (r: HexViewer)
        requires
            cursor <= 0x4000_0000_0000_0000,
        ensures
            r == (HexViewer { cursor: cursor as i64, ..self }),
    {
        HexViewer { cursor: cursor as i64, ..self }
    }

    /// Sets the virtual number of columns; at least one column is kept. If
    /// this makes the content wider than the widget, horizontal scrolling
    /// reaches the rest.
    pub fn virtual_columns(self, columns: u64) -> (r: HexViewer)
        requires
            columns <= 0x10_0000,
        ensures
            r == (HexViewer {
                virtual_columns: (if columns >= 1 {
                    columns as i64
                } else {
                    1i64
                }),
                ..self
            }),
            1 <= r.virtual_columns <= 0x10_0000,
    {
        HexViewer { virtual_columns: if columns >= 1 { columns as i64 } else { 1 }, ..self }
    }

    /// Sets the horizontal step granularity.
    pub fn horizontal_step(self, step: Step) -> (r: HexViewer)
        ensures
            r == (HexViewer { horizontal_step: step, ..self }),
    {
        HexViewer { horizontal_step: step, ..self }
    }

    /// Sets how implicit horizontal scrolls move the viewport.
    pub fn horizontal_navigation(self, navigation: Navigation) -> (r: HexViewer)
        ensures
            r == (HexViewer { horizontal_navigation: navigation, ..self }),
    {
        HexViewer { horizontal_navigation: navigation, ..self }
    }

    /// Sets how implicit horizontal scrolls move the viewport, if a policy
    /// is given at all.
    pub fn horizontal_navigation_maybe(self, navigation_maybe: Option<Navigation>) -> (r:
        HexViewer)
        ensures
            r == match navigation_maybe {
                Some(navigation) => HexViewer { horizontal_navigation: navigation, ..self },
                None => self,
            },
    {
        match navigation_maybe {
            Some(navigation) => HexViewer { horizontal_navigation: navigation, ..self },
            None => self,
        }
    }

    /// Sets how implicit vertical scrolls move the viewport.
    pub fn vertical_navigation(self, navigation: Navigation) -> (r: HexViewer)
        ensures
            r == (HexViewer { vertical_navigation: navigation, ..self }),
    {
        HexViewer { vertical_navigation: navigation, ..self }
    }

    /// Sets how implicit vertical scrolls move the viewport, if a policy is
    /// given at all.
    pub fn vertical_navigation_maybe(self, navigation_maybe: Option<Navigation>) -> (r: HexViewer)
        ensures
            r == match navigation_maybe {
                Some(navigation) => HexViewer { vertical_navigation: navigation, ..self },
                None => self,
            },
    {
        match navigation_maybe {
            Some(navigation) => HexViewer { vertical_navigation: navigation, ..self },
            None => self,
        }
    }

    /// Whether the cursor can move towards the start of the content.
    pub fn cursor_can_decrease(&self) -> (r: bool)
        ensures
            r == (self.cursor > 0),
    {
        self.cursor > 0
    }

    /// Whether the cursor can move towards the end of the content.
    pub fn cursor_can_increase(&self, source_size: i64) -> (r: bool)
        requires
            self.cursor < i64::MAX,
        ensures
            r == (self.cursor + 1 < source_size),
    {
        self.cursor + 1 < source_size
    }

    /// The new cursor position one cell to the left, or `None` when the
    /// cursor is already at the first byte.
    pub fn move_cursor_left(&self) -> (r: Option<i64>)
        ensures
            r == if self.cursor > 0 {
                Some((self.cursor - 1) as i64)
            } else {
                Option::<i64>::None
            },
    {
        if self.cursor_can_decrease() {
            Some(self.cursor - 1)
        } else {
            None
        }
    }

    /// The new cursor position one cell to the right, or `None` when the
    /// cursor is already at the last byte.
    pub fn move_cursor_right(&self, source_size: i64) -> (r: Option<i64>)
        requires
            self.cursor < i64::MAX,
        ensures
            r == if self.cursor + 1 < source_size {
                Some((self.cursor + 1) as i64)
            } else {
                Option::<i64>::None
            },
    {
        if self.cursor_can_increase(source_size) {
            Some(self.cursor + 1)
        } else {
            None
        }
    }

    /// The new cursor position one row up, clamped to the first byte, or
    /// `None` when no movement towards the start is possible.
    pub fn move_cursor_up(&self) -> (r: Option<i64>)
        requires
            self.wf(),
        ensures
            r == if self.cursor > 0 {
                Some(spec_int_max(self.cursor - self.virtual_columns, 0) as i64)
            } else {
                Option::<i64>::None
            },
    {
        if self.cursor_can_decrease() {
            let target = self.cursor - self.virtual_columns;
            Some(if target > 0 { target } else { 0 })
        } else {
            None
        }
    }

    /// The new cursor position one row down, clamped to the last byte, or
    /// `None` when no movement towards the end is possible.
    pub fn move_cursor_down(&self, source_size: i64) -> (r: Option<i64>)
        requires
            self.wf(),
            0 <= source_size <= 0x4000_0000_0000_0000,
        ensures
            r == if self.cursor + 1 < source_size {
                Some(
                    spec_int_min(
                        self.cursor + self.virtual_columns,
                        spec_int_max(source_size as int, 1) - 1,
                    ) as i64,
                )
            } else {
                Option::<i64>::None
            },
    {
        if self.cursor_can_increase(source_size) {
            let limit = (if source_size > 1 { source_size } else { 1 }) - 1;
            let target = self.cursor + self.virtual_columns;
            Some(if target < limit { target } else { limit })
        } else {
            None
        }
    }

    /// The new cursor position `page_size` rows up, clamped to the first
    /// byte, or `None` when no movement towards the start is possible.
    pub fn move_cursor_page_up(&self, page_size: i64) -> (r: Option<i64>)
        requires
            self.wf(),
            0 <= page_size <= 0x4000_0000,
        ensures
            r == if self.cursor > 0 {
                Some(spec_int_max(self.cursor - page_size * self.virtual_columns, 0) as i64)
            } else {
                Option::<i64>::None
            },
    {
        if self.cursor_can_decrease() {
            proof {
                assert(0 <= page_size * self.virtual_columns <= 0x4000_0000 * 0x10_0000)
                    by (nonlinear_arith)
                    requires
                        0 <= page_size <= 0x4000_0000,
                        0 <= self.virtual_columns <= 0x10_0000,
                ;
            }
            let target = self.cursor - page_size * self.virtual_columns;
            Some(if target > 0 { target } else { 0 })
        } else {
            None
        }
    }

    /// The new cursor position `page_size` rows down, clamped to the last
    /// byte, or `None` when no movement towards the end is possible.
    pub fn move_cursor_page_down(&self, page_size: i64, source_size: i64) -> (r: Option<i64>)
        requires
            self.wf(),
            0 <= page_size <= 0x4000_0000,
            0 <= source_size <= 0x4000_0000_0000_0000,
        ensures
            r == if self.cursor + 1 < source_size {
                Some(
                    spec_int_min(
                        self.cursor + page_size * self.virtual_columns,
                        spec_int_max(source_size as int, 1) - 1,
                    ) as i64,
                )
            } else {
                Option::<i64>::None
            },
    {
        if self.cursor_can_increase(source_size) {
            proof {
                assert(0 <= page_size * self.virtual_columns <= 0x4000_0000 * 0x10_0000)
                    by (nonlinear_arith)
                    requires
                        0 <= page_size <= 0x4000_0000,
                        0 <= self.virtual_columns <= 0x10_0000,
                ;
            }
            let limit = (if source_size > 1 { source_size } else { 1 }) - 1;
            let target = self.cursor + page_size * self.virtual_columns;
            Some(if target < limit { target } else { limit })
        } else {
            None
        }
    }

    /// The first byte as the new cursor position, or `None` when the cursor
    /// is already there.
    pub fn move_cursor_top(&self) -> (r: Option<i64>)
        ensures
            r == if self.cursor > 0 {
                Some(0i64)
            } else {
                Option::<i64>::None
            },
    {
        if self.cursor_can_decrease() {
            Some(0)
        } else {
            None
        }
    }

    /// The last byte as the new cursor position, or `None` when the cursor
    /// is already there.
    pub fn move_cursor_bottom(&self, source_size: i64) -> (r: Option<i64>)
        requires
            self.cursor < i64::MAX,
            source_size > i64::MIN,
        ensures
            r == if self.cursor + 1 < source_size {
                Some(spec_int_max(source_size - 1, 0) as i64)
            } else {
                Option::<i64>::None
            },
    {
        if self.cursor_can_increase(source_size) {
            let last = source_size - 1;
            Some(if last > 0 { last } else { 0 })
        } else {
            None
        }
    }
}

/// The absolute boundary a viewport cell maps to: the cell's absolute
/// offset with the cell's side, or, when the cell lies past the end of the
/// source, the last byte (at least offset one) with its right side.
pub open spec fn spec_cell_to_absolute(
    v: HexViewer,
    vp: Viewport,
    source_size: int,
    cell: Cell,
) -> Index {
    let offset = (vp.y + cell.row) * v.virtual_columns + vp.x + cell.col;
    if offset < source_size {
        Index { offset: offset as i64, side: cell.side }
    } else {
        Index { offset: spec_int_max(source_size - 1, 1) as i64, side: Side::Right }
    }
}

/// The boundary index a pointer location maps to: the approximated cell of
/// a data-area location, taken to its absolute offset; locations outside
/// the data areas map to nothing.
pub open spec fn spec_location_index(
    v: HexViewer,
    layout: Layout,
    vp: Viewport,
    source_size: int,
    location: Location,
) -> Option<Index> {
    let rows = (layout.byte_area_content.height + layout.row_height - 1) / (
    layout.row_height as int);
    match location {
        Location::ByteArea(loc) => Some(
            spec_cell_to_absolute(
                v,
                vp,
                source_size,
                crate::layout::spec_approximate_data_cell(loc, v.virtual_columns as int, rows),
            ),
        ),
        Location::CharArea(loc) => Some(
            spec_cell_to_absolute(
                v,
                vp,
                source_size,
                crate::layout::spec_approximate_data_cell(loc, v.virtual_columns as int, rows),
            ),
        ),
        _ => Option::<Index>::None,
    }
}

impl HexViewer {
    /// The absolute boundary index of a viewport cell. A cell past the end
    /// of the source snaps to the last byte, right side.
    pub fn cell_to_absolute(&self, viewport: &Viewport, source_size: i64, cell: &Cell) -> (r:
        Index)
        requires
            self.wf(),
            viewport.wf(),
            0 <= source_size <= 0x4000_0000_0000_0000,
            -0x2_0000_0000 <= cell.col <= 0x2_0000_0000,
            -0x2_0000_0000 <= cell.row <= 0x2_0000_0000,
        ensures
            r == spec_cell_to_absolute(*self, *viewport, source_size as int, *cell),
            cell.col >= 0 && cell.row >= 0 ==> 0 <= r.offset <= 0x4000_0000_0000_0000,
    {
        proof {
            if cell.col >= 0 && cell.row >= 0 {
                assert((viewport.y + cell.row) * self.virtual_columns >= 0) by (nonlinear_arith)
                    requires
                        viewport.y + cell.row >= 0,
                        self.virtual_columns >= 1,
                ;
            }
        }
        proof {
            assert((-0x2_0000_0000 - 0x2_0000_0000) * 0x10_0000 <= (viewport.y + cell.row)
                * self.virtual_columns <= (0x400_0000_0000 + 0x2_0000_0000) * 0x10_0000)
                by (nonlinear_arith)
                requires
                    -0x2_0000_0000 <= viewport.y + cell.row <= 0x400_0000_0000 + 0x2_0000_0000,
                    1 <= self.virtual_columns <= 0x10_0000,
            ;
        }
        let offset = (viewport.y + cell.row) * self.virtual_columns + viewport.x + cell.col;

        if offset < source_size {
            Index::new(offset, cell.side)
        } else {
            let last = source_size - 1;
            Index::new(if last > 1 { last } else { 1 }, Side::Right)
        }
    }

    /// The boundary index a pointer location maps to, if it maps to one.
    pub fn index(&self, layout: &Layout, viewport: &Viewport, source_size: i64, location:
        Location) -> (r: Option<Index>)
        requires
            self.wf(),
            layout.wf(),
            viewport.wf(),
            0 <= source_size <= 0x4000_0000_0000_0000,
            crate::layout::spec_location_bounded(location),
        ensures
            r == spec_location_index(*self, *layout, *viewport, source_size as int, location),
            r is Some ==> 0 <= r->0.offset <= 0x4000_0000_0000_0000,
    {
        let rows = layout.viewport_row_count_ceil();
        match location.approximate_cell(self.virtual_columns, rows) {
            Some(cell) => Some(self.cell_to_absolute(viewport, source_size, &cell)),
            None => None,
        }
    }

    /// Whether, and if so where, the absolute offset is visible in the
    /// viewport; the returned column and row are relative to the viewport's
    /// top left cell.
    pub fn offset_in_viewport(&self, viewport: &Viewport, offset: i64) -> (r: Option<(i64, i64)>)
        requires
            viewport.wf(),
            viewport.virtual_columns >= 1,
            0 <= offset <= 0x7fff_ffff_ffff_ffff,
        ensures
            ({
                let col = offset as int % (viewport.virtual_columns as int);
                let row = offset as int / (viewport.virtual_columns as int);
                if col < viewport.x || col >= viewport.x + viewport.columns || row < viewport.y
                    || row >= viewport.y + viewport.rows {
                    r is None
                } else {
                    r == Some(((col - viewport.x) as i64, (row - viewport.y) as i64))
                }
            }),
    {
        match viewport.contains(offset as u64) {
            Some((col, row)) => {
                proof {
                    assert(0 <= offset as int % (viewport.virtual_columns as int)
                        <= offset as int && 0 <= offset as int / (
                    viewport.virtual_columns as int) <= offset as int) by (nonlinear_arith)
                        requires
                            0 <= offset as int,
                            1 <= viewport.virtual_columns as int,
                    ;
                }
                Some((col as i64, row as i64))
            },
            None => None,
        }
    }

    /// Whether the row is fully visible in the viewport, and if so at which
    /// viewport-relative position.
    pub fn row_fully_in_viewport(&self, viewport: &Viewport, row: i64, layout: &Layout) -> (r:
        Option<i64>)
        requires
            viewport.wf(),
            layout.wf(),
            0 <= row <= 0x4000_0000_0000_0000,
        ensures
            r == spec_row_fully_in_viewport(*viewport, *layout, row as int),
    {
        let count = layout.viewport_row_count_floor();
        let visible = if viewport.rows < count {
            viewport.rows
        } else {
            count
        };
        let y_end = viewport.y + visible;

        if row >= viewport.y && row < y_end {
            Some(row - viewport.y)
        } else {
            None
        }
    }

    /// Whether the column is fully visible in the viewport, and if so at
    /// which viewport-relative position. The first column does not count as
    /// fully visible while a sub-cell shift hides part of it.
    pub fn column_fully_in_viewport(&self, viewport: &Viewport, column: i64, layout: &Layout) -> (
        r: Option<i64>)
        requires
            viewport.wf(),
            layout.wf(),
            0 <= column <= 0x4000_0000_0000_0000,
        ensures
            r == spec_column_fully_in_viewport(*viewport, *layout, column as int),
    {
        let count = layout.viewport_column_count_floor();
        let visible = if viewport.columns < count {
            viewport.columns
        } else {
            count
        };
        let x_end = viewport.x + visible;

        if column >= viewport.x && column < x_end && !(column == viewport.x && viewport.shift_x
            > 0) {
            Some(column - viewport.x)
        } else {
            None
        }
    }

    /// The viewport that shows columns from `x` and rows from `y`, with the
    /// given sub-cell shift: as many columns and rows as remain in the grid
    /// and fit the layout, but always at least one column.
    pub fn create_viewport(&self, layout: &Layout, x: i64, y: i64, shift_x: i64) -> (r: Viewport)
        requires
            self.wf(),
            layout.wf(),
            0 <= x <= 0x10_0000,
            0 <= y <= 0x400_0000_0000,
            0 <= shift_x <= 0x4000_0000,
        ensures
            r == spec_create_viewport(*self, *layout, x as int, y as int, shift_x as int),
            r.wf(),
            r.virtual_columns == self.virtual_columns,
    {
        let remaining = self.virtual_columns - x;
        let col_limit = layout.viewport_column_count_ceil() + 1;
        let clipped_columns = if remaining < col_limit {
            remaining
        } else {
            col_limit
        };
        let columns = if clipped_columns > 1 {
            clipped_columns
        } else {
            1
        };

        let virtual_rows = layout.virtual_rows_ceil();
        let remaining_rows = virtual_rows - y;
        let row_limit = layout.viewport_row_count_ceil();
        let clipped_rows = if remaining_rows < row_limit {
            remaining_rows
        } else {
            row_limit
        };
        let rows = if clipped_rows > 0 {
            clipped_rows
        } else {
            0
        };

        proof {
            assert(columns * rows <= 0x8000 * 0xffff) by (nonlinear_arith)
                requires
                    0 <= columns <= 0x8000,
                    0 <= rows <= 0xffff,
            ;
        }
        Viewport { x, y, columns, rows, shift_x, virtual_columns: self.virtual_columns }
    }

    /// The first column and the sub-cell shift that a horizontal scroll
    /// offset stands for: the offset itself with whole-cell stepping, or the
    /// whole-cell part and the in-cell remainder with pixel stepping.
    pub fn viewport_offset_x(&self, scroll_offset: ScrollOffset, layout: &Layout) -> (r: (
        i64,
        i64,
    ))
        requires
            self.wf(),
            layout.wf(),
            0 <= scroll_offset.x,
            self.horizontal_step is Cell ==> scroll_offset.x <= 0x10_0000,
            self.horizontal_step is Pixel ==> scroll_offset.x <= self.virtual_columns
                * layout.byte_cell_width,
        ensures
            (r.0 as int, r.1 as int) == spec_viewport_offset_x(*self, *layout, scroll_offset.x as int),
            0 <= r.0 <= 0x10_0000,
            0 <= r.1 <= 0x4000_0000,
    {
        match self.horizontal_step {
            Step::Cell => (scroll_offset.x, 0),
            Step::Pixel => {
                proof {
                    assert(0 <= self.virtual_columns * layout.byte_cell_width <= 0x10_0000
                        * 0x4000_0000 && (scroll_offset.x as int) / (
                    layout.byte_cell_width as int) <= self.virtual_columns && 0 <= (
                    scroll_offset.x as int) / (layout.byte_cell_width as int) && 0 <= (
                    scroll_offset.x as int) % (layout.byte_cell_width as int) < 0x4000_0000)
                        by (nonlinear_arith)
                        requires
                            1 <= self.virtual_columns <= 0x10_0000,
                            1 <= layout.byte_cell_width <= 0x4000_0000,
                            0 <= scroll_offset.x as int <= self.virtual_columns
                                * layout.byte_cell_width,
                    ;
                }
                (
                    scroll_offset.x / layout.byte_cell_width,
                    scroll_offset.x % layout.byte_cell_width,
                )
            },
        }
    }

    /// The viewport a two-dimensional scroll offset stands for.
    pub fn create_viewport_from_scroll_offset(&self, layout: &Layout, scroll_offset: ScrollOffset)
        -> (r: Viewport)
        requires
            self.wf(),
            layout.wf(),
            0 <= scroll_offset.x,
            0 <= scroll_offset.y <= 0x400_0000_0000,
            self.horizontal_step is Cell ==> scroll_offset.x <= 0x10_0000,
            self.horizontal_step is Pixel ==> scroll_offset.x <= self.virtual_columns
                * layout.byte_cell_width,
        ensures
            ({
                let xs = spec_viewport_offset_x(*self, *layout, scroll_offset.x as int);
                r == spec_create_viewport(*self, *layout, xs.0, scroll_offset.y as int, xs.1)
            }),
            r.wf(),
            r.virtual_columns == self.virtual_columns,
    {
        let (x, shift_x) = self.viewport_offset_x(scroll_offset, layout);
        self.create_viewport(layout, x, scroll_offset.y, shift_x)
    }

    /// The one-axis scroll state of the horizontal scrollbar: cell-sized
    /// steps over the virtual columns, or pixel-sized steps over the full
    /// virtual width of the byte area.
    pub fn x_viewport(&self, viewport: &Viewport, layout: &Layout) -> (r: scroll::Viewport)
        requires
            self.wf(),
            viewport.wf(),
            layout.wf(),
        ensures
            r == spec_x_viewport(*self, *viewport, *layout),
            r.wf(),
    {
        proof {
            lemma_floor_ceil_adjacent(
                layout.byte_area_content.width as int,
                layout.byte_cell_width as int,
            );
        }
        match self.horizontal_step {
            Step::Cell => scroll::Viewport::new(
                viewport.x,
                self.virtual_columns,
                layout.byte_area_content.width / layout.byte_cell_width,
                (layout.byte_area_content.width + layout.byte_cell_width - 1)
                    / layout.byte_cell_width,
            ),
            Step::Pixel => {
                proof {
                    assert(0 <= viewport.x * layout.byte_cell_width <= 0x10_0000 * 0x4000_0000
                        && 0 <= self.virtual_columns * layout.byte_cell_width <= 0x10_0000
                        * 0x4000_0000) by (nonlinear_arith)
                        requires
                            0 <= viewport.x <= 0x10_0000,
                            1 <= self.virtual_columns <= 0x10_0000,
                            1 <= layout.byte_cell_width <= 0x4000_0000,
                    ;
                }
                scroll::Viewport::new(
                    viewport.x * layout.byte_cell_width + layout.byte_shift,
                    self.virtual_columns * layout.byte_cell_width,
                    layout.byte_area_content.width,
                    layout.byte_area_content.width,
                )
            },
        }
    }

    /// The one-axis scroll state of the vertical scrollbar: row-sized steps
    /// over the virtual rows.
    pub fn y_viewport(&self, viewport: &Viewport, layout: &Layout) -> (r: scroll::Viewport)
        requires
            viewport.wf(),
            layout.wf(),
        ensures
            r == spec_y_viewport(*viewport, *layout),
            r.wf(),
    {
        proof {
            lemma_floor_ceil_adjacent(
                layout.byte_area_content.height as int,
                layout.row_height as int,
            );
        }
        scroll::Viewport::new(
            viewport.y,
            layout.virtual_rows_ceil(),
            layout.byte_area_content.height / layout.row_height,
            (layout.byte_area_content.height + layout.row_height - 1) / layout.row_height,
        )
    }

    /// The viewport change an implicit navigation to `target_offset` makes,
    /// if it makes one.
    ///
    /// Per axis: lazy scrolling keeps the current position while the target
    /// is fully visible, and otherwise puts the target at the requested
    /// edge; aligned scrolling always puts the target at the requested
    /// alignment. Both are clamped to the valid scroll range. A viewport is
    /// produced only if it differs from the current one in position or
    /// sub-cell shift.
    #[verifier::rlimit(100)]
    pub fn scroll_viewport(
        &self,
        viewport: &Viewport,
        target_offset: i64,
        layout: &Layout,
        horizontal: Scroll,
        vertical: Scroll,
    ) -> (r: Option<Viewport>)
        requires
            self.wf(),
            viewport.wf(),
            layout.wf(),
            0 <= target_offset <= 0x4000_0000_0000_0000,
        ensures
            r == spec_scroll_viewport(
                *self,
                *viewport,
                *layout,
                target_offset as int,
                horizontal,
                vertical,
            ),
    {
        proof {
            assert(0 <= target_offset as int % (self.virtual_columns as int)
                < self.virtual_columns as int && 0 <= target_offset as int / (
            self.virtual_columns as int) <= target_offset as int) by (nonlinear_arith)
                requires
                    0 <= target_offset as int,
                    1 <= self.virtual_columns as int,
            ;
        }
        let target_column = target_offset % self.virtual_columns;
        let target_row = target_offset / self.virtual_columns;

        let col_in_view = self.column_fully_in_viewport(viewport, target_column, layout).is_some();
        let row_in_view = self.row_fully_in_viewport(viewport, target_row, layout).is_some();

        let mut shift_x: i64 = 0;

        let unclamped_column = match horizontal {
            Scroll::Lazy(alignment) => {
                if col_in_view {
                    shift_x = viewport.shift_x;
                    viewport.x
                } else {
                    match alignment {
                        LazyAlignment::Start => target_column,
                        LazyAlignment::End => target_column - layout.viewport_column_count_floor()
                            + 1,
                    }
                }
            },
            Scroll::Aligned(alignment) => {
                match alignment {
                    Alignment::Start => target_column,
                    Alignment::Center => target_column - (layout.viewport_column_count_floor() + 1)
                        / 2,
                    Alignment::End => target_column - layout.viewport_column_count_floor() + 1,
                }
            },
        };
        let max_x = layout.max_viewport_x_offset();
        let capped_column = if unclamped_column < max_x {
            unclamped_column
        } else {
            max_x
        };
        let column = if capped_column > 0 {
            capped_column
        } else {
            0
        };

        let unclamped_row = match vertical {
            Scroll::Lazy(alignment) => {
                if row_in_view {
                    viewport.y
                } else {
                    match alignment {
                        LazyAlignment::Start => target_row,
                        LazyAlignment::End => target_row - layout.viewport_row_count_floor() + 1,
                    }
                }
            },
            Scroll::Aligned(alignment) => {
                match alignment {
                    Alignment::Start => target_row,
                    Alignment::Center => target_row - (layout.viewport_row_count_floor() + 1) / 2,
                    Alignment::End => target_row - layout.viewport_row_count_floor() + 1,
                }
            },
        };
        let max_y = layout.max_viewport_y_offset();
        let capped_row = if unclamped_row < max_y {
            unclamped_row
        } else {
            max_y
        };
        let row = if capped_row > 0 {
            capped_row
        } else {
            0
        };

        if column != viewport.x || shift_x != viewport.shift_x || row != viewport.y {
            proof {
                assert(0 <= row <= 0x400_0000_0000) by {
                    assert(spec_virtual_rows_ceil_of(*layout) <= 0x400_0000_0000);
                }
            }
            Some(self.create_viewport(layout, column, row, shift_x))
        } else {
            None
        }
    }
}

/// Whether the row is fully visible in the viewport, and if so at which
/// viewport-relative position.
pub open spec fn spec_row_fully_in_viewport(vp: Viewport, layout: Layout, row: int) -> Option<
    i64,
> {
    let count = spec_count_floor_rows(layout);
    let visible = spec_int_min(vp.rows as int, count);
    if row >= vp.y && row < vp.y + visible {
        Some((row - vp.y) as i64)
    } else {
        Option::<i64>::None
    }
}

/// Whether the column is fully visible in the viewport, and if so at which
/// viewport-relative position; the first column does not count while a
/// sub-cell shift hides part of it.
pub open spec fn spec_column_fully_in_viewport(vp: Viewport, layout: Layout, column: int) -> Option<
    i64,
> {
    let count = spec_count_floor_cols(layout);
    let visible = spec_int_min(vp.columns as int, count);
    if column >= vp.x && column < vp.x + visible && !(column == vp.x && vp.shift_x > 0) {
        Some((column - vp.x) as i64)
    } else {
        Option::<i64>::None
    }
}

/// The number of columns that completely fit in the layout, capped at the
/// virtual column count.
pub open spec fn spec_count_floor_cols(layout: Layout) -> int {
    crate::layout::spec_count_floor(
        layout.byte_area_content.width as int,
        layout.byte_cell_width as int,
        layout.virtual_columns as int,
    )
}

/// The number of rows that completely fit in the layout, capped at the
/// number of virtual rows.
pub open spec fn spec_count_floor_rows(layout: Layout) -> int {
    crate::layout::spec_count_floor(
        layout.byte_area_content.height as int,
        layout.row_height as int,
        spec_virtual_rows_ceil_of(layout),
    )
}

/// The number of rows the source occupies in the layout's virtual grid.
pub open spec fn spec_virtual_rows_ceil_of(layout: Layout) -> int {
    crate::layout::spec_virtual_rows_ceil(
        layout.source_size as int,
        layout.virtual_columns as int,
    )
}

/// The viewport that shows columns from `x` and rows from `y`; see
/// [`HexViewer::create_viewport`].
pub open spec fn spec_create_viewport(
    v: HexViewer,
    layout: Layout,
    x: int,
    y: int,
    shift_x: int,
) -> Viewport {
    let col_limit = (layout.byte_area_content.width + layout.byte_cell_width - 1) / (
    layout.byte_cell_width as int) + 1;
    let columns = spec_int_max(spec_int_min(v.virtual_columns - x, col_limit), 1);
    let row_limit = (layout.byte_area_content.height + layout.row_height - 1) / (
    layout.row_height as int);
    let rows = spec_int_max(spec_int_min(spec_virtual_rows_ceil_of(layout) - y, row_limit), 0);
    Viewport {
        x: x as i64,
        y: y as i64,
        columns: columns as i64,
        rows: rows as i64,
        shift_x: shift_x as i64,
        virtual_columns: v.virtual_columns,
    }
}

/// The first column and sub-cell shift a horizontal scroll offset stands
/// for; see [`HexViewer::viewport_offset_x`].
pub open spec fn spec_viewport_offset_x(v: HexViewer, layout: Layout, scroll_x: int) -> (
    int,
    int,
) {
    match v.horizontal_step {
        Step::Cell => (scroll_x, 0int),
        Step::Pixel => (
            scroll_x / (layout.byte_cell_width as int),
            scroll_x % (layout.byte_cell_width as int),
        ),
    }
}

/// The one-axis scroll state of the horizontal scrollbar; see
/// [`HexViewer::x_viewport`].
pub open spec fn spec_x_viewport(v: HexViewer, vp: Viewport, layout: Layout) -> scroll::Viewport {
    match v.horizontal_step {
        Step::Cell => scroll::Viewport {
            offset: vp.x,
            size: v.virtual_columns,
            steps_floor: ((layout.byte_area_content.width as int) / (layout.byte_cell_width as int)) as i64,
            steps_ceil: ((layout.byte_area_content.width + layout.byte_cell_width - 1) / (
            layout.byte_cell_width as int)) as i64,
        },
        Step::Pixel => scroll::Viewport {
            offset: (vp.x * layout.byte_cell_width + layout.byte_shift) as i64,
            size: (v.virtual_columns * layout.byte_cell_width) as i64,
            steps_floor: layout.byte_area_content.width,
            steps_ceil: layout.byte_area_content.width,
        },
    }
}

/// The one-axis scroll state of the vertical scrollbar; see
/// [`HexViewer::y_viewport`].
pub open spec fn spec_y_viewport(vp: Viewport, layout: Layout) -> scroll::Viewport {
    scroll::Viewport {
        offset: vp.y,
        size: spec_virtual_rows_ceil_of(layout) as i64,
        steps_floor: ((layout.byte_area_content.height as int) / (layout.row_height as int)) as i64,
        steps_ceil: ((layout.byte_area_content.height + layout.row_height - 1) / (
        layout.row_height as int)) as i64,
    }
}

/// The column an implicit horizontal navigation scrolls to, with the
/// sub-cell shift it keeps, before clamping.
pub open spec fn spec_scroll_target_x(
    vp: Viewport,
    layout: Layout,
    target_column: int,
    col_in_view: bool,
    horizontal: Scroll,
) -> (int, int) {
    let count = spec_count_floor_cols(layout);
    match horizontal {
        Scroll::Lazy(alignment) => if col_in_view {
            (vp.x as int, vp.shift_x as int)
        } else {
            match alignment {
                LazyAlignment::Start => (target_column, 0int),
                LazyAlignment::End => (target_column - count + 1, 0int),
            }
        },
        Scroll::Aligned(alignment) => match alignment {
            Alignment::Start => (target_column, 0int),
            Alignment::Center => (target_column - (count + 1) / 2, 0int),
            Alignment::End => (target_column - count + 1, 0int),
        },
    }
}

/// The row an implicit vertical navigation scrolls to, before clamping.
pub open spec fn spec_scroll_target_y(
    vp: Viewport,
    layout: Layout,
    target_row: int,
    row_in_view: bool,
    vertical: Scroll,
) -> int {
    let count = spec_count_floor_rows(layout);
    match vertical {
        Scroll::Lazy(alignment) => if row_in_view {
            vp.y as int
        } else {
            match alignment {
                LazyAlignment::Start => target_row,
                LazyAlignment::End => target_row - count + 1,
            }
        },
        Scroll::Aligned(alignment) => match alignment {
            Alignment::Start => target_row,
            Alignment::Center => target_row - (count + 1) / 2,
            Alignment::End => target_row - count + 1,
        },
    }
}

/// The viewport change an implicit navigation makes, if any; see
/// [`HexViewer::scroll_viewport`].
pub open spec fn spec_scroll_viewport(
    v: HexViewer,
    vp: Viewport,
    layout: Layout,
    target_offset: int,
    horizontal: Scroll,
    vertical: Scroll,
) -> Option<Viewport> {
    let target_column = target_offset % (v.virtual_columns as int);
    let target_row = target_offset / (v.virtual_columns as int);
    let col_in_view = spec_column_fully_in_viewport(vp, layout, target_column) is Some;
    let row_in_view = spec_row_fully_in_viewport(vp, layout, target_row) is Some;
    let xs = spec_scroll_target_x(vp, layout, target_column, col_in_view, horizontal);
    let max_x = spec_int_max(layout.virtual_columns - spec_count_floor_cols(layout), 0);
    let column = spec_int_max(spec_int_min(xs.0, max_x), 0);
    let shift_x = xs.1;
    let ys = spec_scroll_target_y(vp, layout, target_row, row_in_view, vertical);
    let max_y = spec_int_max(spec_virtual_rows_ceil_of(layout) - spec_count_floor_rows(layout), 0);
    let row = spec_int_max(spec_int_min(ys, max_y), 0);
    if column != vp.x || shift_x != vp.shift_x || row != vp.y {
        Some(spec_create_viewport(v, layout, column, row, shift_x))
    } else {
        Option::<Viewport>::None
    }
}

/// For a non-negative length and a positive cell size, the ceiling count is
/// the floor count or one more.
proof fn lemma_floor_ceil_adjacent(length: int, cell: int)
    requires
        0 <= length,
        1 <= cell,
    ensures
        (length + cell - 1) / cell == length / cell || (length + cell - 1) / cell == length / cell
            + 1,
        0 <= length / cell,
{
    assert((length + cell - 1) / cell == length / cell || (length + cell - 1) / cell == length
        / cell + 1) by (nonlinear_arith)
        requires
            0 <= length,
            1 <= cell,
    ;
    assert(0 <= length / cell) by (nonlinear_arith)
        requires
            0 <= length,
            1 <= cell,
    ;
}

/// A key press, as far as the viewer engine cares about it.
#[derive(Clone, Copy, Debug, Eq, PartialEq, Structural)]
pub enum Key {
    /// The left arrow key.
    ArrowLeft,
    /// The right arrow key.
    ArrowRight,
    /// The up arrow key.
    ArrowUp,
    /// The down arrow key.
    ArrowDown,
    /// The page-up key.
    PageUp,
    /// The page-down key.
    PageDown,
    /// The home key.
    Home,
    /// The end key.
    End,
    /// The escape key.
    Escape,
    /// Any other key.
    Other,
}

/// A request to schedule a redraw.
#[derive(Clone, Copy, Debug, Eq, PartialEq, Structural)]
pub enum Redraw {
    /// Redraw as soon as possible.
    Now,
    /// Redraw at the given time, in milliseconds.
    At(u64),
    /// No redraw is needed.
    Idle,
}

/// The intents one event produces, for the embedding shell to perform:
/// each is the payload of the corresponding reported intent, or `None` when
/// that intent is not reported.
#[derive(Clone, Copy, Debug, Eq, PartialEq, Structural)]
pub struct Effects {
    /// Report that the cursor moved to this offset.
    pub cursor_moved: Option<u64>,
    /// Report that the selection changed to this value (which may be the
    /// empty selection).
    pub selection_changed: Option<Option<Selection>>,
    /// Report that the viewport should scroll to this viewport.
    pub scrolled: Option<Viewport>,
    /// Whether a redraw is wanted.
    pub redraw: bool,
}

impl Effects {
    /// No intents at all.
    pub fn empty() -> (r: Effects)
        ensures
            r == spec_no_effects(),
    {
        Effects { cursor_moved: None, selection_changed: None, scrolled: None, redraw: false }
    }
}

/// No intents at all.
pub open spec fn spec_no_effects() -> Effects {
    Effects {
        cursor_moved: Option::None,
        selection_changed: Option::None,
        scrolled: Option::None,
        redraw: false,
    }
}

/// The interaction state of one viewer widget: focus, drag tracking, the
/// selection anchor, hover highlighting, report deduplication, and the
/// repeat-scroll timer.
#[derive(Clone, Copy, Debug)]
pub struct State {
    /// The state of the scroll area.
    pub scroll_area_state: crate::scroll_area::State,
    /// The last reported selection.
    pub last_reported_selection: Option<Selection>,
    /// The last reported viewport, and the content instance it was reported
    /// for.
    pub last_reported_viewport: Option<(Viewport, u64)>,
    /// Whether a selection is being made by dragging the pointer.
    pub dragging: bool,
    /// The absolute start boundary of a current or potential selection.
    pub start_index: Option<Index>,
    /// Whether the widget is focused and accepts keyboard input.
    pub focussed: bool,
    /// Tracks the time between scrollbar jumps while the track is held.
    pub track_timer: Option<crate::util::Timer>,
    /// The hovered column, for header highlighting.
    pub hovered_column: Option<i64>,
    /// The hovered row, for address highlighting.
    pub hovered_row: Option<i64>,
    /// Whether the shift modifier is held.
    pub shift_held: bool,
}

impl State {
    /// Well-formedness: the scrollbar states are sane, a stored selection
    /// anchor is a valid boundary, and a stored timer has a short interval.
    pub open spec fn wf(&self) -> bool {
        &&& self.scroll_area_state.wf()
        &&& match self.start_index {
            Option::Some(index) => 0 <= index.offset <= 0x4000_0000_0000_0000,
            Option::None => true,
        }
        &&& match self.track_timer {
            Option::Some(timer) => timer.interval <= 0x1_0000,
            Option::None => true,
        }
    }

    /// A fresh state: unfocused, nothing dragged, hovered or reported.
    pub fn new() -> (r: State)
        ensures
            r == spec_new_state(),
            r.wf(),
    {
        State {
            scroll_area_state: crate::scroll_area::State::new(),
            last_reported_selection: None,
            last_reported_viewport: None,
            dragging: false,
            start_index: None,
            focussed: false,
            track_timer: None,
            hovered_column: None,
            hovered_row: None,
            shift_held: false,
        }
    }

    /// The stored selection anchor, or, when none is stored, a side-less
    /// boundary at `cursor` that is stored and returned.
    pub fn start_index_or_set(&mut self, cursor: i64) -> (r: Index)
        requires
            0 <= cursor <= 0x4000_0000_0000_0000,
            old(self).wf(),
        ensures
            ({
                let (s, index) = spec_start_index_or_set(*old(self), cursor as int);
                *final(self) == s && r == index
            }),
            final(self).wf(),
    {
        match self.start_index {
            Some(index) => index,
            None => {
                let index = Index::new(cursor, Side::Neither);
                self.start_index = Some(index);
                index
            },
        }
    }
}

/// A fresh interaction state.
pub open spec fn spec_new_state() -> State {
    State {
        scroll_area_state: crate::scroll_area::State {
            x_state: scroll::State { last_region: Option::None, last_click_kind: Option::None },
            y_state: scroll::State { last_region: Option::None, last_click_kind: Option::None },
            shift_held: false,
        },
        last_reported_selection: Option::None,
        last_reported_viewport: Option::None,
        dragging: false,
        start_index: Option::None,
        focussed: false,
        track_timer: Option::None,
        hovered_column: Option::None,
        hovered_row: Option::None,
        shift_held: false,
    }
}

/// The stored anchor, or a fresh side-less anchor at the cursor.
pub open spec fn spec_start_index_or_set(state: State, cursor: int) -> (State, Index) {
    match state.start_index {
        Option::Some(index) => (state, index),
        Option::None => {
            let index = Index { offset: cursor as i64, side: Side::Neither };
            (State { start_index: Option::Some(index), ..state }, index)
        },
    }
}

/// What publishing a selection change does: when the value differs from the
/// last reported one, it is reported (if a receiver is registered at all)
/// and recorded.
pub open spec fn spec_publish_selection(state: State, has_receiver: bool, selection: Option<
    Selection,
>) -> (State, Option<Option<Selection>>) {
    if state.last_reported_selection != selection {
        (
            State { last_reported_selection: selection, ..state },
            if has_receiver {
                Option::Some(selection)
            } else {
                Option::<Option<Selection>>::None
            },
        )
    } else {
        (state, Option::<Option<Selection>>::None)
    }
}

/// What publishing a scroll request does: the viewport is reported and
/// recorded when a receiver is registered, the viewport differs from the
/// current one, and the same viewport was not already reported for this
/// content instance.
pub open spec fn spec_publish_scrolled(
    state: State,
    has_receiver: bool,
    viewport: Viewport,
    current: Viewport,
    content_id: u64,
) -> (State, Option<Viewport>) {
    if has_receiver && viewport != current && state.last_reported_viewport != Option::Some(
        (viewport, content_id),
    ) {
        (
            State { last_reported_viewport: Option::Some((viewport, content_id)), ..state },
            Option::Some(viewport),
        )
    } else {
        (state, Option::<Viewport>::None)
    }
}

impl State {
    /// Publishes a selection change; see [`spec_publish_selection`].
    pub fn publish_on_selection(&mut self, has_receiver: bool, selection: Option<Selection>) -> (r:
        Option<Option<Selection>>)
        requires
            old(self).wf(),
        ensures
            ({
                let (s, eff) = spec_publish_selection(*old(self), has_receiver, selection);
                *final(self) == s && r == eff
            }),
            final(self).wf(),
    {
        if self.last_reported_selection != selection {
            self.last_reported_selection = selection;
            if has_receiver {
                Some(selection)
            } else {
                None
            }
        } else {
            None
        }
    }

    /// Publishes a scroll request; see [`spec_publish_scrolled`].
    pub fn publish_scrolled(
        &mut self,
        has_receiver: bool,
        viewport: Viewport,
        current: &Viewport,
        content_id: u64,
    ) -> (r: Option<Viewport>)
        requires
            old(self).wf(),
        ensures
            ({
                let (s, eff) = spec_publish_scrolled(
                    *old(self),
                    has_receiver,
                    viewport,
                    *current,
                    content_id,
                );
                *final(self) == s && r == eff
            }),
            final(self).wf(),
    {
        let already = match self.last_reported_viewport {
            Some((vp, id)) => vp == viewport && id == content_id,
            None => false,
        };
        if has_receiver && viewport != *current && !already {
            self.last_reported_viewport = Some((viewport, content_id));
            Some(viewport)
        } else {
            None
        }
    }
}

/// The offset a track interaction on the horizontal axis scrolls to: a
/// double click jumps right to the clicked offset; any other click pages by
/// the number of whole steps the viewport holds.
pub open spec fn spec_horizontal_track(
    x_viewport: scroll::Viewport,
    kind: scroll::ClickKind,
    side: scroll::TrackSide,
    offset: int,
) -> int {
    if kind is Double {
        offset
    } else {
        let page = x_viewport.steps_floor as int;
        match side {
            scroll::TrackSide::Before => scroll::clamp_to(
                x_viewport.offset - page,
                x_viewport.spec_virtual_max_offset(),
            ),
            scroll::TrackSide::After => scroll::clamp_to(
                x_viewport.offset + page,
                x_viewport.spec_virtual_max_offset(),
            ),
        }
    }
}

/// The offset a track interaction on the vertical axis scrolls to: a
/// double click jumps right to the clicked offset; any other click pages by
/// the number of whole rows the viewport holds.
pub open spec fn spec_vertical_track(
    y_viewport: scroll::Viewport,
    layout: Layout,
    kind: scroll::ClickKind,
    side: scroll::TrackSide,
    offset: int,
) -> int {
    if kind is Double {
        offset
    } else {
        let page = spec_count_floor_rows(layout);
        match side {
            scroll::TrackSide::Before => spec_int_max(y_viewport.offset - page, 0),
            scroll::TrackSide::After => spec_int_min(
                y_viewport.offset + page,
                y_viewport.spec_virtual_max_offset(),
            ),
        }
    }
}

/// What handling a held track does: while the clicked side still lies in
/// the scroll direction, the repeat timer gates the jump; once the timer
/// has fired the jump is taken and the timer re-armed, and a redraw is
/// scheduled at the (new) timer target either way.
pub open spec fn spec_track_held(
    timer: Option<crate::util::Timer>,
    now: int,
    side: scroll::TrackSide,
    offset: int,
    axis_offset: int,
    jump: Option<ScrollOffset>,
) -> (Option<crate::util::Timer>, Option<ScrollOffset>, Redraw) {
    match timer {
        Option::Some(t) => {
            let moving = (side is Before && offset < axis_offset) || (side is After && offset
                > axis_offset);
            if moving {
                if now > t.target {
                    let t2 = crate::util::Timer {
                        target: (now + t.interval) as u64,
                        interval: t.interval,
                    };
                    (Option::Some(t2), jump, Redraw::At(t2.target))
                } else {
                    (Option::Some(t), Option::<ScrollOffset>::None, Redraw::At(t.target))
                }
            } else {
                (Option::Some(t), Option::<ScrollOffset>::None, Redraw::Idle)
            }
        },
        Option::None => (Option::<crate::util::Timer>::None, Option::<ScrollOffset>::None, Redraw::Idle),
    }
}

/// What handling one scroll-area result does with the repeat timer: the
/// new timer, the scroll offset to move to (if any), and the redraw wanted.
pub open spec fn spec_handle_scroll_result(
    timer: Option<crate::util::Timer>,
    now: int,
    result: crate::scroll_area::ScrollAreaResult,
    layout: Layout,
    x_viewport: scroll::Viewport,
    y_viewport: scroll::Viewport,
) -> (Option<crate::util::Timer>, Option<ScrollOffset>, Redraw) {
    match result {
        crate::scroll_area::ScrollAreaResult::Horizontal(result) => match result {
            scroll::ScrollResult::ThumbDragged(offset) => (
                timer,
                Option::Some(ScrollOffset { x: offset, y: y_viewport.offset }),
                Redraw::Now,
            ),
            scroll::ScrollResult::TrackClicked(kind, side, offset) => (
                Option::Some(crate::util::Timer { target: (now + 100) as u64, interval: 100 }),
                Option::Some(
                    ScrollOffset {
                        x: spec_horizontal_track(x_viewport, kind, side, offset as int) as i64,
                        y: y_viewport.offset,
                    },
                ),
                Redraw::Now,
            ),
            scroll::ScrollResult::TrackHeld(kind, side, offset) => spec_track_held(
                timer,
                now,
                side,
                offset as int,
                x_viewport.offset as int,
                Option::Some(
                    ScrollOffset {
                        x: spec_horizontal_track(x_viewport, kind, side, offset as int) as i64,
                        y: y_viewport.offset,
                    },
                ),
            ),
            scroll::ScrollResult::ThumbGrabbed(_) => (
                timer,
                Option::<ScrollOffset>::None,
                Redraw::Now,
            ),
            scroll::ScrollResult::AppearanceChanged => (
                timer,
                Option::<ScrollOffset>::None,
                Redraw::Now,
            ),
            scroll::ScrollResult::Unhandled => (timer, Option::<ScrollOffset>::None, Redraw::Idle),
        },
        crate::scroll_area::ScrollAreaResult::Vertical(result) => match result {
            scroll::ScrollResult::ThumbDragged(offset) => (
                timer,
                Option::Some(ScrollOffset { x: x_viewport.offset, y: offset }),
                Redraw::Now,
            ),
            scroll::ScrollResult::TrackClicked(kind, side, offset) => (
                Option::Some(crate::util::Timer { target: (now + 100) as u64, interval: 100 }),
                Option::Some(
                    ScrollOffset {
                        x: x_viewport.offset,
                        y: spec_vertical_track(y_viewport, layout, kind, side, offset as int) as i64,
                    },
                ),
                Redraw::Now,
            ),
            scroll::ScrollResult::TrackHeld(kind, side, offset) => spec_track_held(
                timer,
                now,
                side,
                offset as int,
                y_viewport.offset as int,
                Option::Some(
                    ScrollOffset {
                        x: x_viewport.offset,
                        y: spec_vertical_track(y_viewport, layout, kind, side, offset as int) as i64,
                    },
                ),
            ),
            scroll::ScrollResult::ThumbGrabbed(_) => (
                timer,
                Option::<ScrollOffset>::None,
                Redraw::Now,
            ),
            scroll::ScrollResult::AppearanceChanged => (
                timer,
                Option::<ScrollOffset>::None,
                Redraw::Now,
            ),
            scroll::ScrollResult::Unhandled => (timer, Option::<ScrollOffset>::None, Redraw::Idle),
        },
        crate::scroll_area::ScrollAreaResult::WheelScroll { x, y } => (
            timer,
            Option::Some(ScrollOffset { x, y }),
            Redraw::Now,
        ),
        crate::scroll_area::ScrollAreaResult::Unhandled => (
            timer,
            Option::<ScrollOffset>::None,
            Redraw::Idle,
        ),
    }
}

impl HexViewer {
    /// Handles the result of the scroll area for one event: turns scrollbar
    /// interactions into the scroll offset the viewport should move to, and
    /// drives the repeat timer of held track clicks. `now_ms` is the current
    /// time in milliseconds.
    #[verifier::rlimit(100)]
    pub fn handle_scroll_result(
        &self,
        state: &mut State,
        now_ms: u64,
        result: crate::scroll_area::ScrollAreaResult,
        layout: &Layout,
        x_viewport: scroll::Viewport,
        y_viewport: scroll::Viewport,
    ) -> (r: (Option<ScrollOffset>, Redraw))
        requires
            old(state).wf(),
            layout.wf(),
            x_viewport.wf(),
            y_viewport.wf(),
            -0x1000_0000_0000_0000 <= x_viewport.offset <= 0x1000_0000_0000_0000,
            -0x1000_0000_0000_0000 <= y_viewport.offset <= 0x1000_0000_0000_0000,
            x_viewport.steps_floor <= 0x1000_0000_0000_0000,
            y_viewport.size <= 0x1000_0000_0000_0000,
            now_ms <= 0xffff_ffff_ff00_0000,
        ensures
            ({
                let (timer, offset, redraw) = spec_handle_scroll_result(
                    old(state).track_timer,
                    now_ms as int,
                    result,
                    *layout,
                    x_viewport,
                    y_viewport,
                );
                &&& *final(state) == State { track_timer: timer, ..*old(state) }
                &&& r == (offset, redraw)
            }),
            final(state).wf(),
    {
        match result {
            crate::scroll_area::ScrollAreaResult::Horizontal(result) => match result {
                scroll::ScrollResult::ThumbDragged(offset) => (
                    Some(ScrollOffset::new(offset, y_viewport.offset)),
                    Redraw::Now,
                ),
                scroll::ScrollResult::TrackClicked(kind, side, offset) => {
                    state.track_timer = Some(crate::util::Timer::new(now_ms, 100));
                    let x = self.horizontal_track(x_viewport, kind, side, offset);
                    (Some(ScrollOffset::new(x, y_viewport.offset)), Redraw::Now)
                },
                scroll::ScrollResult::TrackHeld(kind, side, offset) => {
                    let x = self.horizontal_track(x_viewport, kind, side, offset);
                    track_held(
                        state,
                        now_ms,
                        side,
                        offset,
                        x_viewport.offset,
                        ScrollOffset::new(x, y_viewport.offset),
                    )
                },
                scroll::ScrollResult::ThumbGrabbed(_)
                | scroll::ScrollResult::AppearanceChanged => (None, Redraw::Now),
                scroll::ScrollResult::Unhandled => (None, Redraw::Idle),
            },
            crate::scroll_area::ScrollAreaResult::Vertical(result) => match result {
                scroll::ScrollResult::ThumbDragged(offset) => (
                    Some(ScrollOffset::new(x_viewport.offset, offset)),
                    Redraw::Now,
                ),
                scroll::ScrollResult::TrackClicked(kind, side, offset) => {
                    state.track_timer = Some(crate::util::Timer::new(now_ms, 100));
                    let y = self.vertical_track(y_viewport, layout, kind, side, offset);
                    (Some(ScrollOffset::new(x_viewport.offset, y)), Redraw::Now)
                },
                scroll::ScrollResult::TrackHeld(kind, side, offset) => {
                    let y = self.vertical_track(y_viewport, layout, kind, side, offset);
                    track_held(
                        state,
                        now_ms,
                        side,
                        offset,
                        y_viewport.offset,
                        ScrollOffset::new(x_viewport.offset, y),
                    )
                },
                scroll::ScrollResult::ThumbGrabbed(_)
                | scroll::ScrollResult::AppearanceChanged => (None, Redraw::Now),
                scroll::ScrollResult::Unhandled => (None, Redraw::Idle),
            },
            crate::scroll_area::ScrollAreaResult::WheelScroll { x, y } => (
                Some(ScrollOffset::new(x, y)),
                Redraw::Now,
            ),
            crate::scroll_area::ScrollAreaResult::Unhandled => (None, Redraw::Idle),
        }
    }

    /// The offset a horizontal track interaction scrolls to; see
    /// [`spec_horizontal_track`].
    fn horizontal_track(
        &self,
        x_viewport: scroll::Viewport,
        kind: scroll::ClickKind,
        side: scroll::TrackSide,
        offset: i64,
    ) -> (r: i64)
        requires
            x_viewport.wf(),
            -0x1000_0000_0000_0000 <= x_viewport.offset <= 0x1000_0000_0000_0000,
            x_viewport.steps_floor <= 0x1000_0000_0000_0000,
        ensures
            r == spec_horizontal_track(x_viewport, kind, side, offset as int),
    {
        if matches!(kind, scroll::ClickKind::Double) {
            offset
        } else {
            let page = x_viewport.viewport_steps_floor();
            match side {
                scroll::TrackSide::Before => x_viewport.sub_clamped(page),
                scroll::TrackSide::After => x_viewport.add_clamped(page),
            }
        }
    }

    /// The offset a vertical track interaction scrolls to; see
    /// [`spec_vertical_track`].
    fn vertical_track(
        &self,
        y_viewport: scroll::Viewport,
        layout: &Layout,
        kind: scroll::ClickKind,
        side: scroll::TrackSide,
        offset: i64,
    ) -> (r: i64)
        requires
            y_viewport.wf(),
            layout.wf(),
            -0x1000_0000_0000_0000 <= y_viewport.offset <= 0x1000_0000_0000_0000,
            y_viewport.size <= 0x1000_0000_0000_0000,
        ensures
            r == spec_vertical_track(y_viewport, *layout, kind, side, offset as int),
    {
        if matches!(kind, scroll::ClickKind::Double) {
            offset
        } else {
            let page = layout.viewport_row_count_floor();
            match side {
                scroll::TrackSide::Before => {
                    let target = y_viewport.offset - page;
                    if target > 0 {
                        target
                    } else {
                        0
                    }
                },
                scroll::TrackSide::After => {
                    let target = y_viewport.offset + page;
                    let max = y_viewport.virtual_max_offset();
                    if target < max {
                        target
                    } else {
                        max
                    }
                },
            }
        }
    }
}

/// Handles a held track click; see [`spec_track_held`].
fn track_held(
    state: &mut State,
    now_ms: u64,
    side: scroll::TrackSide,
    offset: i64,
    axis_offset: i64,
    jump: ScrollOffset,
) -> (r: (Option<ScrollOffset>, Redraw))
    requires
        old(state).wf(),
        now_ms <= 0xffff_ffff_ff00_0000,
    ensures
        ({
            let (timer, result, redraw) = spec_track_held(
                old(state).track_timer,
                now_ms as int,
                side,
                offset as int,
                axis_offset as int,
                Some(jump),
            );
            &&& *final(state) == State { track_timer: timer, ..*old(state) }
            &&& r == (result, redraw)
        }),
        final(state).wf(),
{
    let mut result: Option<ScrollOffset> = None;
    let mut redraw = Redraw::Idle;

    if let Some(mut timer) = state.track_timer {
        let (finished, _) = timer.test(now_ms);

        let moving = match side {
            scroll::TrackSide::Before => offset < axis_offset,
            scroll::TrackSide::After => offset > axis_offset,
        };

        if moving {
            if finished {
                timer.set_at_interval(now_ms);
                state.track_timer = Some(timer);
                result = Some(jump);
            }
            redraw = Redraw::At(timer.target());
        }
    }

    (result, redraw)
}

/// The cursor position a key press targets, or `None` when the key moves
/// nothing: arrows step by one cell or one row, page keys by `page` rows,
/// home and end jump to the first and last byte, and a move towards the
/// start or the end is possible only while the cursor is not already there.
pub open spec fn spec_key_cursor_target(v: HexViewer, key: Key, source_size: int, page: int) -> Option<
    int,
> {
    match key {
        Key::ArrowLeft => if v.cursor > 0 {
            Option::Some((v.cursor - 1) as int)
        } else {
            Option::<int>::None
        },
        Key::ArrowRight => if v.cursor + 1 < source_size {
            Option::Some((v.cursor + 1) as int)
        } else {
            Option::<int>::None
        },
        Key::ArrowUp => if v.cursor > 0 {
            Option::Some(spec_int_max(v.cursor - v.virtual_columns, 0))
        } else {
            Option::<int>::None
        },
        Key::ArrowDown => if v.cursor + 1 < source_size {
            Option::Some(
                spec_int_min(v.cursor + v.virtual_columns, spec_int_max(source_size, 1) - 1),
            )
        } else {
            Option::<int>::None
        },
        Key::PageUp => if v.cursor > 0 {
            Option::Some(spec_int_max(v.cursor - page * v.virtual_columns, 0))
        } else {
            Option::<int>::None
        },
        Key::PageDown => if v.cursor + 1 < source_size {
            Option::Some(
                spec_int_min(
                    v.cursor + page * v.virtual_columns,
                    spec_int_max(source_size, 1) - 1,
                ),
            )
        } else {
            Option::<int>::None
        },
        Key::Home => if v.cursor > 0 {
            Option::Some(0int)
        } else {
            Option::<int>::None
        },
        Key::End => if v.cursor + 1 < source_size {
            Option::Some(spec_int_max(source_size - 1, 0))
        } else {
            Option::<int>::None
        },
        Key::Escape => Option::<int>::None,
        Key::Other => Option::<int>::None,
    }
}

/// The scrolling intent a navigation policy gives for a key: lazy
/// navigation aligns to the start of the viewport for keys that move
/// towards the start (left, up, page up) and to its end for all others;
/// aligned navigation keeps its alignment.
pub open spec fn spec_scroll_of(navigation: Navigation, key: Key) -> Scroll {
    match navigation {
        Navigation::Lazy => if key is ArrowLeft || key is ArrowUp || key is PageUp {
            Scroll::Lazy(LazyAlignment::Start)
        } else {
            Scroll::Lazy(LazyAlignment::End)
        },
        Navigation::Aligned(alignment) => Scroll::Aligned(alignment),
    }
}

/// Whether a key is one of the cursor movement keys.
pub open spec fn spec_is_movement_key(key: Key) -> bool {
    !(key is Escape || key is Other)
}

/// The transition of one key press; see [`HexViewer::on_key_pressed`].
pub open spec fn spec_on_key_pressed(
    v: HexViewer,
    state: State,
    layout: Layout,
    vp: Viewport,
    source_size: int,
    key: Key,
    shift: bool,
    has_on_selection: bool,
    has_on_cursor_moved: bool,
    has_on_scrolled: bool,
    content_id: u64,
) -> (HexViewer, State, Effects) {
    if !state.focussed {
        (v, state, spec_no_effects())
    } else if !spec_is_movement_key(key) {
        if key is Escape {
            let s1 = State { start_index: Option::None, ..state };
            let (s2, sel_eff) = spec_publish_selection(s1, has_on_selection, Option::None);
            (
                v,
                s2,
                Effects {
                    cursor_moved: Option::None,
                    selection_changed: sel_eff,
                    scrolled: Option::None,
                    redraw: sel_eff is Some,
                },
            )
        } else {
            (v, state, spec_no_effects())
        }
    } else {
        let page = spec_count_floor_rows(layout);
        let target = spec_key_cursor_target(v, key, source_size, page);
        let moved = if shift {
            match target {
                Option::Some(nc) => {
                    let (s_a, anchor) = spec_start_index_or_set(state, v.cursor as int);
                    let sel = crate::selection::spec_selection(
                        anchor,
                        Index { offset: nc as i64, side: Side::Neither },
                        nc,
                    );
                    let (s_b, sel_eff) = spec_publish_selection(s_a, has_on_selection, sel);
                    (
                        HexViewer { cursor: nc as i64, ..v },
                        s_b,
                        Effects {
                            cursor_moved: Option::None,
                            selection_changed: sel_eff,
                            scrolled: Option::None,
                            redraw: sel_eff is Some,
                        },
                    )
                },
                Option::None => (v, state, spec_no_effects()),
            }
        } else {
            match target {
                Option::Some(nc) => (
                    HexViewer { cursor: nc as i64, ..v },
                    State { start_index: Option::None, ..state },
                    Effects {
                        cursor_moved: if has_on_cursor_moved {
                            Option::Some(nc as u64)
                        } else {
                            Option::<u64>::None
                        },
                        selection_changed: Option::None,
                        scrolled: Option::None,
                        redraw: has_on_cursor_moved,
                    },
                ),
                Option::None => {
                    let s1 = State { start_index: Option::None, ..state };
                    let (s2, sel_eff) = spec_publish_selection(s1, has_on_selection, Option::None);
                    (
                        v,
                        s2,
                        Effects {
                            cursor_moved: Option::None,
                            selection_changed: sel_eff,
                            scrolled: Option::None,
                            redraw: sel_eff is Some,
                        },
                    )
                },
            }
        };
        let v1 = moved.0;
        let s1 = moved.1;
        let eff1 = moved.2;
        match spec_scroll_viewport(
            v1,
            vp,
            layout,
            v1.cursor as int,
            spec_scroll_of(v1.horizontal_navigation, key),
            spec_scroll_of(v1.vertical_navigation, key),
        ) {
            Option::Some(new_viewport) => {
                let (s2, scrolled) = spec_publish_scrolled(
                    s1,
                    has_on_scrolled,
                    new_viewport,
                    vp,
                    content_id,
                );
                (
                    v1,
                    s2,
                    Effects {
                        scrolled,
                        redraw: eff1.redraw || scrolled is Some,
                        ..eff1
                    },
                )
            },
            Option::None => (v1, s1, eff1),
        }
    }
}

/// The transition of one primary-button press; see
/// [`HexViewer::on_button_pressed`].
pub open spec fn spec_on_button_pressed(
    v: HexViewer,
    state: State,
    layout: Layout,
    vp: Viewport,
    source_size: int,
    pointer: Option<(int, int)>,
    over_window: bool,
    has_on_selection: bool,
    has_on_cursor_moved: bool,
) -> (HexViewer, State, Effects) {
    match pointer {
        Option::Some(p) => {
            let s_focus = State { focussed: true, ..state };
            let location = crate::layout::spec_pointer_location(layout, p.0, p.1);
            match spec_location_index(v, layout, vp, source_size, location) {
                Option::Some(index) => if state.shift_held {
                    let (s_a, start) = spec_start_index_or_set(s_focus, v.cursor as int);
                    let sel = crate::selection::spec_selection(start, index, index.offset as int);
                    let (s_b, sel_eff) = spec_publish_selection(s_a, has_on_selection, sel);
                    (
                        v,
                        State { dragging: true, ..s_b },
                        Effects {
                            cursor_moved: Option::None,
                            selection_changed: sel_eff,
                            scrolled: Option::None,
                            redraw: sel_eff is Some,
                        },
                    )
                } else {
                    let moved = index.offset != v.cursor;
                    (
                        HexViewer { cursor: index.offset, ..v },
                        State { start_index: Option::Some(index), dragging: true, ..s_focus },
                        Effects {
                            cursor_moved: if moved && has_on_cursor_moved {
                                Option::Some(index.offset as u64)
                            } else {
                                Option::<u64>::None
                            },
                            selection_changed: Option::None,
                            scrolled: Option::None,
                            redraw: moved && has_on_cursor_moved,
                        },
                    )
                },
                Option::None => (v, s_focus, spec_no_effects()),
            }
        },
        Option::None => if over_window {
            (v, State { focussed: false, ..state }, spec_no_effects())
        } else {
            (v, state, spec_no_effects())
        },
    }
}

/// The transition of one pointer movement; see
/// [`HexViewer::on_pointer_moved`].
pub open spec fn spec_on_pointer_moved(
    v: HexViewer,
    state: State,
    layout: Layout,
    vp: Viewport,
    source_size: int,
    pointer: Option<(int, int)>,
    has_on_selection: bool,
) -> (State, Effects) {
    match pointer {
        Option::Some(p) => {
            let location = crate::layout::spec_pointer_location(layout, p.0, p.1);
            let dragged = if state.dragging && state.start_index is Some {
                match spec_location_index(v, layout, vp, source_size, location) {
                    Option::Some(index) => {
                        let sel = crate::selection::spec_selection(
                            state.start_index->0,
                            index,
                            index.offset as int,
                        );
                        spec_publish_selection(state, has_on_selection, sel)
                    },
                    Option::None => (state, Option::<Option<Selection>>::None),
                }
            } else {
                (state, Option::<Option<Selection>>::None)
            };
            let s1 = dragged.0;
            let column = spec_location_column(location);
            let row = spec_location_row(location);
            let column_changed = column != state.hovered_column;
            let row_changed = row != state.hovered_row;
            (
                State { hovered_column: column, hovered_row: row, ..s1 },
                Effects {
                    cursor_moved: Option::None,
                    selection_changed: dragged.1,
                    scrolled: Option::None,
                    redraw: dragged.1 is Some || column_changed || row_changed,
                },
            )
        },
        Option::None => (state, spec_no_effects()),
    }
}

/// The column a location strictly refers to.
pub open spec fn spec_location_column(location: Location) -> Option<i64> {
    match location {
        Location::ByteArea(loc) => spec_data_location_column(loc),
        Location::CharArea(loc) => spec_data_location_column(loc),
        _ => Option::<i64>::None,
    }
}

/// The row a location strictly refers to.
pub open spec fn spec_location_row(location: Location) -> Option<i64> {
    match location {
        Location::ByteArea(loc) => spec_data_location_row(loc),
        Location::CharArea(loc) => spec_data_location_row(loc),
        _ => Option::<i64>::None,
    }
}

/// The column a data-area location strictly refers to.
pub open spec fn spec_data_location_column(loc: crate::layout::DataLocation) -> Option<i64> {
    match loc {
        crate::layout::DataLocation::Cell(cell) => Option::Some(cell.col),
        crate::layout::DataLocation::PaddingTop(col) => Option::Some(col),
        crate::layout::DataLocation::PaddingBottom(col) => Option::Some(col),
        _ => Option::<i64>::None,
    }
}

/// The row a data-area location strictly refers to.
pub open spec fn spec_data_location_row(loc: crate::layout::DataLocation) -> Option<i64> {
    match loc {
        crate::layout::DataLocation::Cell(cell) => Option::Some(cell.row),
        crate::layout::DataLocation::PaddingLeft(row) => Option::Some(row),
        crate::layout::DataLocation::PaddingRight(row) => Option::Some(row),
        _ => Option::<i64>::None,
    }
}

/// The viewport that the current scroll state, fitted to its valid range,
/// stands for, and what checking it publishes; see
/// [`HexViewer::check_state`].
pub open spec fn spec_check_state(
    v: HexViewer,
    state: State,
    layout: Layout,
    vp: Viewport,
    content_id: u64,
    has_receiver: bool,
) -> (State, Option<Viewport>) {
    let x_fitted = spec_x_viewport(v, vp, layout).spec_fitted_offset();
    let y_fitted = spec_y_viewport(vp, layout).spec_fitted_offset();
    let xs = spec_viewport_offset_x(v, layout, x_fitted);
    let fitted = spec_create_viewport(v, layout, xs.0, y_fitted, xs.1);
    spec_publish_scrolled(state, has_receiver, fitted, vp, content_id)
}

impl HexViewer {
    /// Handles a press of the primary button or a touch. A press over a
    /// data cell focuses the widget and, with shift held, extends a
    /// selection from the (possibly freshly set) anchor; without shift it
    /// moves the cursor there, re-anchors, and starts a drag. A press
    /// outside the widget but inside the host window takes the focus away.
    pub fn on_button_pressed(
        &mut self,
        state: &mut State,
        layout: &Layout,
        viewport: &Viewport,
        source_size: i64,
        pointer: Option<(i64, i64)>,
        over_window: bool,
        has_on_selection: bool,
        has_on_cursor_moved: bool,
    ) -> (r: Effects)
        requires
            old(self).wf(),
            old(state).wf(),
            layout.wf(),
            viewport.wf(),
            0 <= source_size <= 0x4000_0000_0000_0000,
            match pointer {
                Option::Some(p) => -0x4000_0000 <= p.0 <= 0x4000_0000 && -0x4000_0000 <= p.1
                    <= 0x4000_0000,
                Option::None => true,
            },
        ensures
            ({
                let (v1, s1, eff) = spec_on_button_pressed(
                    *old(self),
                    *old(state),
                    *layout,
                    *viewport,
                    source_size as int,
                    match pointer {
                        Option::Some(p) => Option::Some((p.0 as int, p.1 as int)),
                        Option::None => Option::<(int, int)>::None,
                    },
                    over_window,
                    has_on_selection,
                    has_on_cursor_moved,
                );
                *final(self) == v1 && *final(state) == s1 && r == eff
            }),
            final(self).wf(),
            final(state).wf(),
    {
        match pointer {
            Some((px, py)) => {
                state.focussed = true;

                let location = layout.pointer_location(px, py);

                if let Some(index) = self.index(layout, viewport, source_size, location) {
                    let effects = if state.shift_held {
                        let start = state.start_index_or_set(self.cursor);
                        let sel = crate::selection::selection(start, index, index.offset);
                        let sel_eff = state.publish_on_selection(has_on_selection, sel);
                        Effects {
                            cursor_moved: None,
                            selection_changed: sel_eff,
                            scrolled: None,
                            redraw: sel_eff.is_some(),
                        }
                    } else {
                        let moved = index.offset != self.cursor;
                        self.cursor = index.offset;
                        state.start_index = Some(index);
                        Effects {
                            cursor_moved: if moved && has_on_cursor_moved {
                                Some(index.offset as u64)
                            } else {
                                None
                            },
                            selection_changed: None,
                            scrolled: None,
                            redraw: moved && has_on_cursor_moved,
                        }
                    };
                    state.dragging = true;
                    effects
                } else {
                    Effects::empty()
                }
            },
            None => {
                if over_window {
                    state.focussed = false;
                }
                Effects::empty()
            },
        }
    }

    /// Handles a release of the primary button or a lifted touch: the drag
    /// ends, but the selection anchor is kept so that a later shift-aided
    /// interaction can continue from it.
    pub fn on_button_released(&self, state: &mut State)
        ensures
            *final(state) == (State { dragging: false, ..*old(state) }),
    {
        state.dragging = false;
    }

    /// Handles a pointer movement. While a drag is running, the selection
    /// between the anchor and the cell under the pointer is recomputed; the
    /// hovered column and row are tracked for header highlighting either
    /// way.
    pub fn on_pointer_moved(
        &self,
        state: &mut State,
        layout: &Layout,
        viewport: &Viewport,
        source_size: i64,
        pointer: Option<(i64, i64)>,
        has_on_selection: bool,
    ) -> (r: Effects)
        requires
            self.wf(),
            old(state).wf(),
            layout.wf(),
            viewport.wf(),
            0 <= source_size <= 0x4000_0000_0000_0000,
            match pointer {
                Option::Some(p) => -0x4000_0000 <= p.0 <= 0x4000_0000 && -0x4000_0000 <= p.1
                    <= 0x4000_0000,
                Option::None => true,
            },
        ensures
            ({
                let (s1, eff) = spec_on_pointer_moved(
                    *self,
                    *old(state),
                    *layout,
                    *viewport,
                    source_size as int,
                    match pointer {
                        Option::Some(p) => Option::Some((p.0 as int, p.1 as int)),
                        Option::None => Option::<(int, int)>::None,
                    },
                    has_on_selection,
                );
                *final(state) == s1 && r == eff
            }),
            final(state).wf(),
    {
        match pointer {
            Some((px, py)) => {
                let location = layout.pointer_location(px, py);

                let mut sel_eff: Option<Option<Selection>> = None;
                if state.dragging {
                    if let Some(start) = state.start_index {
                        if let Some(index) = self.index(layout, viewport, source_size, location) {
                            let sel = crate::selection::selection(start, index, index.offset);
                            sel_eff = state.publish_on_selection(has_on_selection, sel);
                        }
                    }
                }

                let column = location.column();
                let column_changed = column != state.hovered_column;
                state.hovered_column = column;

                let row = location.row();
                let row_changed = row != state.hovered_row;
                state.hovered_row = row;

                Effects {
                    cursor_moved: None,
                    selection_changed: sel_eff,
                    scrolled: None,
                    redraw: sel_eff.is_some() || column_changed || row_changed,
                }
            },
            None => Effects::empty(),
        }
    }

    /// Handles a key press; nothing happens while the widget is not
    /// focused. Movement keys step the cursor; with shift held the
    /// selection extends from the (possibly freshly set) anchor to the new
    /// cursor, without shift the cursor simply moves and the anchor is
    /// dropped, and a movement key that cannot move at a boundary clears
    /// the selection. Escape clears anchor and selection without moving the
    /// cursor. Every cursor change asks the viewport to follow, according
    /// to the two navigation policies.
    #[verifier::rlimit(100)]
    pub fn on_key_pressed(
        &mut self,
        state: &mut State,
        layout: &Layout,
        viewport: &Viewport,
        source_size: i64,
        key: Key,
        shift: bool,
        has_on_selection: bool,
        has_on_cursor_moved: bool,
        has_on_scrolled: bool,
        content_id: u64,
    ) -> (r: Effects)
        requires
            old(self).wf(),
            old(state).wf(),
            layout.wf(),
            viewport.wf(),
            0 <= source_size <= 0x4000_0000_0000_0000,
        ensures
            ({
                let (v1, s1, eff) = spec_on_key_pressed(
                    *old(self),
                    *old(state),
                    *layout,
                    *viewport,
                    source_size as int,
                    key,
                    shift,
                    has_on_selection,
                    has_on_cursor_moved,
                    has_on_scrolled,
                    content_id,
                );
                *final(self) == v1 && *final(state) == s1 && r == eff
            }),
            final(self).wf(),
            final(state).wf(),
    {
        if !state.focussed {
            return Effects::empty();
        }

        let maybe_new_cursor = match key {
            Key::ArrowLeft => self.move_cursor_left(),
            Key::ArrowRight => self.move_cursor_right(source_size),
            Key::ArrowUp => self.move_cursor_up(),
            Key::ArrowDown => self.move_cursor_down(source_size),
            Key::PageUp => self.move_cursor_page_up(layout.viewport_row_count_floor()),
            Key::PageDown => self.move_cursor_page_down(
                layout.viewport_row_count_floor(),
                source_size,
            ),
            Key::Home => self.move_cursor_top(),
            Key::End => self.move_cursor_bottom(source_size),
            Key::Escape | Key::Other => {
                if matches!(key, Key::Escape) {
                    state.start_index = None;
                    let sel_eff = state.publish_on_selection(has_on_selection, None);
                    return Effects {
                        cursor_moved: None,
                        selection_changed: sel_eff,
                        scrolled: None,
                        redraw: sel_eff.is_some(),
                    };
                }
                return Effects::empty();
            },
        };

        let mut effects = if shift {
            if let Some(new_cursor) = maybe_new_cursor {
                let anchor = state.start_index_or_set(self.cursor);
                let new_index = Index::new(new_cursor, Side::Neither);
                let sel = crate::selection::selection(anchor, new_index, new_cursor);
                let sel_eff = state.publish_on_selection(has_on_selection, sel);
                self.cursor = new_cursor;
                Effects {
                    cursor_moved: None,
                    selection_changed: sel_eff,
                    scrolled: None,
                    redraw: sel_eff.is_some(),
                }
            } else {
                Effects::empty()
            }
        } else if let Some(new_cursor) = maybe_new_cursor {
            state.start_index = None;
            self.cursor = new_cursor;
            Effects {
                cursor_moved: if has_on_cursor_moved {
                    Some(new_cursor as u64)
                } else {
                    None
                },
                selection_changed: None,
                scrolled: None,
                redraw: has_on_cursor_moved,
            }
        } else {
            state.start_index = None;
            let sel_eff = state.publish_on_selection(has_on_selection, None);
            Effects {
                cursor_moved: None,
                selection_changed: sel_eff,
                scrolled: None,
                redraw: sel_eff.is_some(),
            }
        };

        let horizontal = scroll_of(self.horizontal_navigation, key);
        let vertical = scroll_of(self.vertical_navigation, key);

        if let Some(new_viewport) = self.scroll_viewport(
            viewport,
            self.cursor,
            layout,
            horizontal,
            vertical,
        ) {
            let scrolled = state.publish_scrolled(has_on_scrolled, new_viewport, viewport, content_id);
            effects.redraw = effects.redraw || scrolled.is_some();
            effects.scrolled = scrolled;
        }
        effects
    }

    /// Records a change of the keyboard modifiers.
    pub fn on_modifiers_changed(&self, state: &mut State, shift: bool)
        ensures
            *final(state) == (State { shift_held: shift, ..*old(state) }),
    {
        state.shift_held = shift;
    }

    /// Checks the stored viewport against the current layout: the scroll
    /// offsets are fitted to their valid ranges and the viewport that fits
    /// the layout is derived. If it differs from the stored one and was not
    /// already reported for this content instance, it is reported as a
    /// logical viewport resize.
    pub fn check_state(
        &self,
        state: &mut State,
        layout: &Layout,
        viewport: &Viewport,
        content_id: u64,
        has_receiver: bool,
    ) -> (r: Option<Viewport>)
        requires
            self.wf(),
            old(state).wf(),
            layout.wf(),
            viewport.wf(),
        ensures
            ({
                let (s1, reported) = spec_check_state(
                    *self,
                    *old(state),
                    *layout,
                    *viewport,
                    content_id,
                    has_receiver,
                );
                *final(state) == s1 && r == reported
            }),
            final(state).wf(),
    {
        let x_axis = self.x_viewport(viewport, layout);
        let y_axis = self.y_viewport(viewport, layout);
        let scroll_offset = ScrollOffset::new(
            x_axis.fitted_scroll_offset(),
            y_axis.fitted_scroll_offset(),
        );

        let fitted = self.create_viewport_from_scroll_offset(layout, scroll_offset);
        state.publish_scrolled(has_receiver, fitted, viewport, content_id)
    }
}

/// The scrolling intent of a navigation policy for a key; see
/// [`spec_scroll_of`].
fn scroll_of(navigation: Navigation, key: Key) -> (r: Scroll)
    ensures
        r == spec_scroll_of(navigation, key),
{
    match navigation {
        Navigation::Lazy => {
            if matches!(key, Key::ArrowLeft | Key::ArrowUp | Key::PageUp) {
                Scroll::Lazy(LazyAlignment::Start)
            } else {
                Scroll::Lazy(LazyAlignment::End)
            }
        },
        Navigation::Aligned(alignment) => Scroll::Aligned(alignment),
    }
}

/// The larger of two values.
pub open spec fn spec_int_max(a: int, b: int) -> int {
    if a > b {
        a
    } else {
        b
    }
}

/// The smaller of two values.
pub open spec fn spec_int_min(a: int, b: int) -> int {
    if a < b {
        a
    } else {
        b
    }
}

} // verus!
