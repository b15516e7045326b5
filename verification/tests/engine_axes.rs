//! Tests of the axis viewport construction, the track-held repeat timer,
//! and the track paging of the scroll-result handler.

use hex_viewer::layout::{Layout, Rect};
use hex_viewer::scroll::{ClickKind, ScrollResult, TrackSide, Viewport as AxisViewport};
use hex_viewer::scroll_area::ScrollAreaResult;
use hex_viewer::util::Timer;
use hex_viewer::viewer::{HexViewer, Redraw, ScrollOffset, State, Step};
use hex_viewer::viewport::Viewport;

fn test_layout(source_size: i64) -> Layout {
    Layout {
        source_size,
        virtual_columns: 16,
        byte_cell_width: 20,
        char_cell_width: 10,
        row_height: 16,
        byte_shift: 0,
        char_shift: 0,
        byte_area_header: Rect { x: 60, y: 0, width: 200, height: 20 },
        char_area_header: Rect { x: 260, y: 0, width: 100, height: 20 },
        address_area: Rect { x: 0, y: 20, width: 60, height: 200 },
        byte_area: Rect { x: 60, y: 20, width: 200, height: 200 },
        char_area: Rect { x: 260, y: 20, width: 100, height: 200 },
        byte_area_content: Rect { x: 66, y: 24, width: 188, height: 192 },
        char_area_content: Rect { x: 264, y: 24, width: 92, height: 192 },
    }
}

fn grid(x: i64, y: i64, columns: i64, rows: i64) -> Viewport {
    Viewport { x, y, columns, rows, shift_x: 0, virtual_columns: 16 }
}

#[test]
fn cell_stepping_scrolls_over_the_virtual_columns() {
    let viewer = HexViewer::new().virtual_columns(16);
    let layout = test_layout(1600);

    let x_axis = viewer.x_viewport(&grid(2, 0, 8, 4), &layout);
    assert_eq!(x_axis.offset, 2);
    assert_eq!(x_axis.size, 16);
    // 188 pixels of content at 20 pixels per cell: 9 whole, 10 partial.
    assert_eq!(x_axis.viewport_steps_floor(), 9);
    assert_eq!(x_axis.viewport_steps_ceil(), 10);
}

#[test]
fn pixel_stepping_scrolls_over_the_virtual_width() {
    let viewer = HexViewer::new().virtual_columns(16).horizontal_step(Step::Pixel);
    let mut layout = test_layout(1600);
    layout.byte_shift = 7;

    let x_axis = viewer.x_viewport(&grid(2, 0, 8, 4), &layout);
    // Offset in pixels: 2 cells of 20 pixels plus the 7 pixel shift.
    assert_eq!(x_axis.offset, 47);
    assert_eq!(x_axis.size, 16 * 20);
    assert_eq!(x_axis.viewport_steps_floor(), 188);
}

#[test]
fn vertical_axis_covers_the_virtual_rows() {
    let viewer = HexViewer::new().virtual_columns(16);
    let layout = test_layout(1600);

    let y_axis = viewer.y_viewport(&grid(0, 5, 8, 4), &layout);
    assert_eq!(y_axis.offset, 5);
    // 1600 bytes in rows of 16.
    assert_eq!(y_axis.size, 100);
    // 192 pixels of content at 16 pixels per row.
    assert_eq!(y_axis.viewport_steps_floor(), 12);
    assert_eq!(y_axis.viewport_steps_ceil(), 12);
}

#[test]
fn track_clicks_page_by_one_viewport() {
    let viewer = HexViewer::new().virtual_columns(16);
    let mut state = State::new();
    let layout = test_layout(1600);

    let x_axis = AxisViewport::new(2, 16, 9, 10);
    let y_axis = AxisViewport::new(30, 100, 12, 12);

    // A single click below the thumb pages down by the rows that fit.
    let (offset, redraw) = viewer.handle_scroll_result(
        &mut state,
        1000,
        ScrollAreaResult::Vertical(ScrollResult::TrackClicked(
            ClickKind::Single,
            TrackSide::After,
            77,
        )),
        &layout,
        x_axis,
        y_axis,
    );
    assert_eq!(offset, Some(ScrollOffset::new(2, 42)));
    assert_eq!(redraw, Redraw::Now);
    assert!(state.track_timer.is_some());

    // A double click jumps straight to the clicked offset.
    let (offset, _) = viewer.handle_scroll_result(
        &mut state,
        1000,
        ScrollAreaResult::Vertical(ScrollResult::TrackClicked(
            ClickKind::Double,
            TrackSide::After,
            77,
        )),
        &layout,
        x_axis,
        y_axis,
    );
    assert_eq!(offset, Some(ScrollOffset::new(2, 77)));
}

#[test]
fn held_tracks_repeat_on_the_timer() {
    let viewer = HexViewer::new().virtual_columns(16);
    let mut state = State::new();
    state.track_timer = Some(Timer::new(1000, 100));
    let layout = test_layout(1600);

    let x_axis = AxisViewport::new(2, 16, 9, 10);
    let y_axis = AxisViewport::new(30, 100, 12, 12);
    let held = ScrollAreaResult::Vertical(ScrollResult::TrackHeld(
        ClickKind::Single,
        TrackSide::After,
        77,
    ));

    // Before the timer fires: no jump, but a redraw at the timer target.
    let (offset, redraw) = viewer.handle_scroll_result(&mut state, 1050, held, &layout, x_axis, y_axis);
    assert_eq!(offset, None);
    assert_eq!(redraw, Redraw::At(1100));

    // After the timer fires: the jump is taken and the timer re-armed.
    let (offset, redraw) = viewer.handle_scroll_result(&mut state, 1150, held, &layout, x_axis, y_axis);
    assert_eq!(offset, Some(ScrollOffset::new(2, 42)));
    assert_eq!(redraw, Redraw::At(1250));

    // Once the pointer is no longer past the thumb, holding does nothing.
    let parked = ScrollAreaResult::Vertical(ScrollResult::TrackHeld(
        ClickKind::Single,
        TrackSide::After,
        20,
    ));
    let (offset, redraw) = viewer.handle_scroll_result(&mut state, 1300, parked, &layout, x_axis, y_axis);
    assert_eq!(offset, None);
    assert_eq!(redraw, Redraw::Idle);
}

#[test]
fn horizontal_track_pages_by_whole_steps() {
    let viewer = HexViewer::new().virtual_columns(16);
    let mut state = State::new();
    let layout = test_layout(1600);

    let x_axis = AxisViewport::new(2, 16, 9, 10);
    let y_axis = AxisViewport::new(30, 100, 12, 12);

    let (offset, _) = viewer.handle_scroll_result(
        &mut state,
        1000,
        ScrollAreaResult::Horizontal(ScrollResult::TrackClicked(
            ClickKind::Single,
            TrackSide::Before,
            1,
        )),
        &layout,
        x_axis,
        y_axis,
    );
    // Paging left by 9 whole cells from column 2 clamps at 0.
    assert_eq!(offset, Some(ScrollOffset::new(0, 30)));
}

#[test]
fn thumb_drags_move_to_the_reported_offset() {
    let viewer = HexViewer::new().virtual_columns(16);
    let mut state = State::new();
    let layout = test_layout(1600);

    let x_axis = AxisViewport::new(2, 16, 9, 10);
    let y_axis = AxisViewport::new(30, 100, 12, 12);

    let (offset, redraw) = viewer.handle_scroll_result(
        &mut state,
        1000,
        ScrollAreaResult::Vertical(ScrollResult::ThumbDragged(63)),
        &layout,
        x_axis,
        y_axis,
    );
    assert_eq!(offset, Some(ScrollOffset::new(2, 63)));
    assert_eq!(redraw, Redraw::Now);
}
