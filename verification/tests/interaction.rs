//! Tests of selections, pointer classification over the pixel layout, and
//! the cursor/keyboard/pointer interaction engine.

use hex_viewer::layout::{Cell, DataLocation, Layout, Location, Rect};
use hex_viewer::selection::{Index, Selection, Side, selection};
use hex_viewer::viewer::{
    Effects, HexViewer, Key, LazyAlignment, Navigation, Redraw, Scroll, ScrollOffset, State, Step,
};
use hex_viewer::scroll_area::ScrollAreaResult;
use hex_viewer::viewport::Viewport;

fn test_layout(source_size: i64) -> Layout {
    Layout {
        source_size,
        virtual_columns: 16,
        byte_cell_width: 20,
        char_cell_width: 10,
        row_height: 16,
        byte_shift: 0,
        char_shift: 0,
        byte_area_header: Rect { x: 60, y: 0, width: 200, height: 20 },
        char_area_header: Rect { x: 260, y: 0, width: 100, height: 20 },
        address_area: Rect { x: 0, y: 20, width: 60, height: 200 },
        byte_area: Rect { x: 60, y: 20, width: 200, height: 200 },
        char_area: Rect { x: 260, y: 20, width: 100, height: 200 },
        byte_area_content: Rect { x: 66, y: 24, width: 188, height: 192 },
        char_area_content: Rect { x: 264, y: 24, width: 92, height: 192 },
    }
}

fn grid(x: i64, y: i64, columns: i64, rows: i64) -> Viewport {
    Viewport { x, y, columns, rows, shift_x: 0, virtual_columns: 16 }
}

fn focussed_state() -> State {
    let mut state = State::new();
    state.focussed = true;
    state
}

#[test]
fn selection_of_one_cell_across_its_halves() {
    // Clicking the left half of the cell at offset 5 and dragging to its
    // right half selects exactly that byte.
    let result = selection(Index::new(5, Side::Left), Index::new(5, Side::Right), 5);
    assert_eq!(result, Some(Selection::new(5, 1, 5)));
}

#[test]
fn selection_is_order_independent() {
    let a = Index::new(3, Side::Right);
    let b = Index::new(7, Side::Left);
    assert_eq!(selection(a, b, 7), selection(b, a, 7));
    assert_eq!(selection(a, b, 7), Some(Selection::new(4, 3, 7)));

    let c = Index::new(2, Side::Neither);
    let d = Index::new(2, Side::Neither);
    assert_eq!(selection(c, d, 2), selection(d, c, 2));
}

#[test]
fn empty_selections_collapse_to_nothing() {
    // The right half of one cell to the left half of the next selects no
    // whole byte.
    assert_eq!(selection(Index::new(5, Side::Right), Index::new(6, Side::Left), 6), None);
    // A single click on one half selects nothing either.
    assert_eq!(selection(Index::new(5, Side::Left), Index::new(5, Side::Left), 5), None);
}

#[test]
fn last_contained_clamps_into_the_selection() {
    assert_eq!(Selection::new(10, 5, 3).last_contained(), 10);
    assert_eq!(Selection::new(10, 5, 99).last_contained(), 14);
    assert_eq!(Selection::new(10, 5, 12).last_contained(), 12);
}

#[test]
fn index_orders_by_offset_then_side() {
    assert!(Index::new(3, Side::Right).lt(&Index::new(4, Side::Left)));
    assert!(Index::new(3, Side::Left).lt(&Index::new(3, Side::Neither)));
    assert!(Index::new(3, Side::Neither).lt(&Index::new(3, Side::Right)));
    assert!(!Index::new(3, Side::Right).lt(&Index::new(3, Side::Right)));
}

#[test]
fn cell_to_pixel_to_cell_round_trips_at_the_center() {
    let layout = test_layout(1600);

    for col in 0..9i64 {
        for row in 0..12i64 {
            let rect = layout.byte_cell(col, row);
            let center = (rect.x + rect.width / 2, rect.y + rect.height / 2);
            match layout.pointer_location(center.0, center.1) {
                Location::ByteArea(DataLocation::Cell(cell)) => {
                    assert_eq!((cell.col, cell.row), (col, row));
                }
                other => panic!("expected a cell hit, got {:?}", other),
            }
        }
    }
}

#[test]
fn pointer_classification_finds_the_named_regions() {
    let layout = test_layout(1600);

    assert_eq!(layout.pointer_location(70, 10), Location::ByteHeader);
    assert_eq!(layout.pointer_location(270, 10), Location::CharHeader);
    assert_eq!(layout.pointer_location(10, 30), Location::AddressArea);
    assert_eq!(layout.pointer_location(500, 500), Location::Other);

    // Left of the content but inside the byte area: left padding of row 4.
    assert_eq!(
        layout.pointer_location(62, 100),
        Location::ByteArea(DataLocation::PaddingLeft(4))
    );
}

#[test]
fn clicks_in_the_padding_approximate_to_edge_cells() {
    assert_eq!(
        DataLocation::PaddingLeft(4).approximate_cell(16, 12),
        Cell::new(0, 4, Side::Left)
    );
    assert_eq!(
        DataLocation::PaddingRight(2).approximate_cell(16, 12),
        Cell::new(15, 2, Side::Right)
    );
    assert_eq!(
        DataLocation::PaddingTop(3).approximate_cell(16, 12),
        Cell::new(0, 0, Side::Left)
    );
    // The bottom padding keeps its column and lands on the last visible row.
    assert_eq!(
        DataLocation::PaddingBottom(3).approximate_cell(16, 12),
        Cell::new(3, 11, Side::Right)
    );
    assert_eq!(
        DataLocation::CornerBottomRight.approximate_cell(16, 12),
        Cell::new(0, 11, Side::Right)
    );
}

#[test]
fn the_halves_of_a_cell_give_left_and_right() {
    let layout = test_layout(1600);
    // Cell (0, 0) of the byte area spans x 66..86; its left half ends at 76.
    match layout.pointer_location(70, 30) {
        Location::ByteArea(DataLocation::Cell(cell)) => assert_eq!(cell.side, Side::Left),
        other => panic!("expected a cell hit, got {:?}", other),
    }
    match layout.pointer_location(80, 30) {
        Location::ByteArea(DataLocation::Cell(cell)) => assert_eq!(cell.side, Side::Right),
        other => panic!("expected a cell hit, got {:?}", other),
    }
}

#[test]
fn moving_left_at_the_first_byte_is_impossible() {
    // Cursor at offset 0: no movement, and no cursor-moved intent.
    let viewer = HexViewer::new();
    assert_eq!(viewer.move_cursor_left(), None);

    let mut viewer = HexViewer::new();
    let mut state = focussed_state();
    let layout = test_layout(100);
    let effects = viewer.on_key_pressed(
        &mut state,
        &layout,
        &grid(0, 0, 8, 4),
        100,
        Key::ArrowLeft,
        false,
        true,
        true,
        true,
        0,
    );
    assert_eq!(effects.cursor_moved, None);
    assert_eq!(viewer.cursor, 0);
}

#[test]
fn arrow_down_steps_one_virtual_row() {
    // Cursor at 50 in a 100-byte source with 16 virtual columns.
    let viewer = HexViewer::new().virtual_columns(16).cursor(50);
    assert_eq!(viewer.move_cursor_down(100), Some(66));

    let mut viewer = HexViewer::new().virtual_columns(16).cursor(50);
    let mut state = focussed_state();
    let layout = test_layout(100);
    let effects = viewer.on_key_pressed(
        &mut state,
        &layout,
        &grid(0, 0, 8, 4),
        100,
        Key::ArrowDown,
        false,
        true,
        true,
        true,
        0,
    );
    assert_eq!(effects.cursor_moved, Some(66));
    assert_eq!(viewer.cursor, 66);
}

#[test]
fn cursor_movement_clamps_at_the_edges() {
    let viewer = HexViewer::new().virtual_columns(16).cursor(90);
    assert_eq!(viewer.move_cursor_down(100), Some(99));
    assert_eq!(viewer.move_cursor_right(100), Some(91));
    assert_eq!(viewer.move_cursor_up(), Some(74));
    assert_eq!(viewer.move_cursor_page_up(3), Some(42));
    assert_eq!(viewer.move_cursor_page_down(3, 100), Some(99));
    assert_eq!(viewer.move_cursor_top(), Some(0));
    assert_eq!(viewer.move_cursor_bottom(100), Some(99));

    let at_end = HexViewer::new().virtual_columns(16).cursor(99);
    assert_eq!(at_end.move_cursor_right(100), None);
    assert_eq!(at_end.move_cursor_down(100), None);
    assert_eq!(at_end.move_cursor_bottom(100), None);
}

#[test]
fn pressing_a_cell_moves_the_cursor_and_starts_a_drag() {
    let mut viewer = HexViewer::new().virtual_columns(16);
    let mut state = State::new();
    let layout = test_layout(1600);
    let viewport = grid(0, 0, 10, 12);

    // The center of byte cell (3, 2): absolute offset 2 * 16 + 3 = 35.
    let effects = viewer.on_button_pressed(
        &mut state,
        &layout,
        &viewport,
        1600,
        Some((136, 64)),
        true,
        true,
        true,
    );

    assert!(state.focussed);
    assert!(state.dragging);
    assert_eq!(viewer.cursor, 35);
    assert_eq!(effects.cursor_moved, Some(35));
    assert_eq!(state.start_index, Some(Index::new(35, Side::Right)));
}

#[test]
fn pressing_outside_the_widget_takes_the_focus() {
    let mut viewer = HexViewer::new();
    let mut state = focussed_state();
    let layout = test_layout(1600);

    viewer.on_button_pressed(
        &mut state,
        &layout,
        &grid(0, 0, 10, 12),
        1600,
        None,
        true,
        true,
        true,
    );
    assert!(!state.focussed);
}

#[test]
fn dragging_extends_the_selection() {
    let mut viewer = HexViewer::new().virtual_columns(16);
    let mut state = State::new();
    let layout = test_layout(1600);
    let viewport = grid(0, 0, 10, 12);

    viewer.on_button_pressed(&mut state, &layout, &viewport, 1600, Some((136, 64)), true, true, true);

    // Drag to the right half of the next cell: offsets 36 is selected.
    let effects = viewer.on_pointer_moved(&mut state, &layout, &viewport, 1600, Some((156, 64)), true);
    assert_eq!(effects.selection_changed, Some(Some(Selection::new(36, 1, 36))));

    viewer.on_button_released(&mut state);
    assert!(!state.dragging);
    // The anchor survives the release for shift-aided continuation.
    assert_eq!(state.start_index, Some(Index::new(35, Side::Right)));
}

#[test]
fn hovering_tracks_the_column_and_row() {
    let viewer = HexViewer::new().virtual_columns(16);
    let mut state = State::new();
    let layout = test_layout(1600);
    let viewport = grid(0, 0, 10, 12);

    let effects = viewer.on_pointer_moved(&mut state, &layout, &viewport, 1600, Some((136, 64)), true);
    assert_eq!(state.hovered_column, Some(3));
    assert_eq!(state.hovered_row, Some(2));
    assert!(effects.redraw);

    // The same position again changes nothing, so no redraw is wanted.
    let effects = viewer.on_pointer_moved(&mut state, &layout, &viewport, 1600, Some((136, 64)), true);
    assert!(!effects.redraw);
}

#[test]
fn shift_and_arrow_extend_a_selection_from_the_anchor() {
    let mut viewer = HexViewer::new().virtual_columns(16).cursor(10);
    let mut state = focussed_state();
    let layout = test_layout(1600);

    let effects = viewer.on_key_pressed(
        &mut state,
        &layout,
        &grid(0, 0, 10, 12),
        1600,
        Key::ArrowRight,
        true,
        true,
        true,
        true,
        0,
    );

    assert_eq!(viewer.cursor, 11);
    assert_eq!(state.start_index, Some(Index::new(10, Side::Neither)));
    assert_eq!(effects.selection_changed, Some(Some(Selection::new(10, 2, 11))));
}

#[test]
fn escape_clears_anchor_and_selection() {
    let mut viewer = HexViewer::new().virtual_columns(16).cursor(10);
    let mut state = focussed_state();
    state.start_index = Some(Index::new(10, Side::Neither));
    state.last_reported_selection = Some(Selection::new(10, 2, 11));
    let layout = test_layout(1600);

    let effects = viewer.on_key_pressed(
        &mut state,
        &layout,
        &grid(0, 0, 10, 12),
        1600,
        Key::Escape,
        false,
        true,
        true,
        true,
        0,
    );

    assert_eq!(state.start_index, None);
    assert_eq!(effects.selection_changed, Some(None));
    assert_eq!(viewer.cursor, 10);
}

#[test]
fn unfocused_widgets_ignore_keys() {
    let mut viewer = HexViewer::new().virtual_columns(16).cursor(10);
    let mut state = State::new();
    let layout = test_layout(1600);

    let effects = viewer.on_key_pressed(
        &mut state,
        &layout,
        &grid(0, 0, 10, 12),
        1600,
        Key::ArrowRight,
        false,
        true,
        true,
        true,
        0,
    );

    assert_eq!(effects, Effects::empty());
    assert_eq!(viewer.cursor, 10);
}

#[test]
fn lazy_navigation_scrolls_only_when_the_cursor_leaves_the_view() {
    let viewer = HexViewer::new().virtual_columns(16);
    let layout = test_layout(1600);
    let viewport = grid(0, 0, 8, 4);

    // Offset 50 is at column 2, row 3: fully visible, nothing to do.
    assert_eq!(
        viewer.scroll_viewport(
            &viewport,
            50,
            &layout,
            Scroll::Lazy(LazyAlignment::End),
            Scroll::Lazy(LazyAlignment::End),
        ),
        None
    );

    // Offset 320 is at row 20, far below: the view aligns it to its end
    // (12 rows fit the layout).
    let scrolled = viewer
        .scroll_viewport(
            &viewport,
            320,
            &layout,
            Scroll::Lazy(LazyAlignment::End),
            Scroll::Lazy(LazyAlignment::End),
        )
        .expect("the viewport must move");
    assert_eq!(scrolled.y, 9);
    assert_eq!(scrolled.x, 0);
}

#[test]
fn aligned_navigation_centers_the_cursor_row() {
    let viewer = HexViewer::new().virtual_columns(16);
    let layout = test_layout(1600);
    let viewport = grid(0, 0, 8, 4);

    let scrolled = viewer
        .scroll_viewport(
            &viewport,
            320,
            &layout,
            Scroll::Lazy(LazyAlignment::End),
            Scroll::Aligned(hex_viewer::viewer::Alignment::Center),
        )
        .expect("the viewport must move");
    // Row 20, centered in 12 visible rows: 20 - (12 + 1) / 2 = 14.
    assert_eq!(scrolled.y, 14);
}

#[test]
fn wheel_scroll_results_move_the_viewport() {
    let viewer = HexViewer::new().virtual_columns(16);
    let mut state = State::new();
    let layout = test_layout(1600);
    let viewport = grid(0, 0, 10, 12);

    let x_axis = viewer.x_viewport(&viewport, &layout);
    let y_axis = viewer.y_viewport(&viewport, &layout);

    let (offset, redraw) = viewer.handle_scroll_result(
        &mut state,
        1000,
        ScrollAreaResult::WheelScroll { x: 2, y: 30 },
        &layout,
        x_axis,
        y_axis,
    );

    assert_eq!(offset, Some(ScrollOffset::new(2, 30)));
    assert_eq!(redraw, Redraw::Now);
}

#[test]
fn viewport_from_scroll_offset_clips_to_the_grid() {
    let viewer = HexViewer::new().virtual_columns(16);
    let layout = test_layout(1600);

    let viewport = viewer.create_viewport_from_scroll_offset(&layout, ScrollOffset::new(2, 30));
    assert_eq!(viewport.x, 2);
    assert_eq!(viewport.y, 30);
    // 16 - 2 = 14 columns remain, at most column capacity + 1 = 11.
    assert_eq!(viewport.columns, 11);
    // 100 - 30 = 70 rows remain, at most the 12 that fit.
    assert_eq!(viewport.rows, 12);
    assert_eq!(viewport.shift_x, 0);
}

#[test]
fn pixel_stepping_splits_the_offset_into_cell_and_shift() {
    let viewer = HexViewer::new().virtual_columns(16).horizontal_step(Step::Pixel);
    let layout = test_layout(1600);

    let (x, shift) = viewer.viewport_offset_x(ScrollOffset::new(50, 0), &layout);
    assert_eq!((x, shift), (2, 10));

    let viewport = viewer.create_viewport_from_scroll_offset(&layout, ScrollOffset::new(50, 0));
    assert_eq!(viewport.x, 2);
    assert_eq!(viewport.shift_x, 10);
}

#[test]
fn check_state_reports_a_refitted_viewport_once() {
    let viewer = HexViewer::new().virtual_columns(16);
    let mut state = State::new();
    let layout = test_layout(1600);
    // A stored viewport scrolled beyond the valid range: y 200 of at most
    // 100 - 12 = 88.
    let viewport = grid(0, 200, 8, 4);

    let reported = viewer.check_state(&mut state, &layout, &viewport, 1, true);
    let fitted = reported.expect("the refitted viewport must be reported");
    assert_eq!(fitted.y, 88);

    // The same state is not reported twice for the same content.
    let again = viewer.check_state(&mut state, &layout, &viewport, 1, true);
    assert_eq!(again, None);
}

#[test]
fn navigation_policies_can_be_set_optionally() {
    let viewer = HexViewer::new()
        .horizontal_navigation(Navigation::Lazy)
        .vertical_navigation(Navigation::Aligned(hex_viewer::viewer::Alignment::Start))
        .horizontal_navigation_maybe(None)
        .vertical_navigation_maybe(Some(Navigation::Lazy));
    assert_eq!(viewer.horizontal_navigation, Navigation::Lazy);
    assert_eq!(viewer.vertical_navigation, Navigation::Lazy);
}
