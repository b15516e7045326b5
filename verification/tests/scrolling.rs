//! Tests of the one-axis scroll model, the scrollbar state machine, the
//! scroll area coordinator, and the repeat timer.

use hex_viewer::scroll::{
    BarStatus, ClickKind, Geometry, PointerEvent, Region, ScrollResult, State, Status, TrackSide,
    Viewport, update,
};
use hex_viewer::scroll_area::{
    AxisInput, Event, ScrollArea, ScrollAreaResult, State as AreaState, WheelDelta, wheel_steps,
};
use hex_viewer::util::Timer;

fn axis(offset: i64, size: i64, steps: i64) -> Viewport {
    Viewport::new(offset, size, steps, steps)
}

#[test]
fn fitted_offset_clamps_to_virtual_max() {
    // A viewport of 1000 steps showing 100 whole steps scrolls at most to 900.
    let viewport = axis(0, 1000, 100);
    assert_eq!(viewport.virtual_max_offset(), 900);

    let overshot = axis(950, 1000, 100);
    assert_eq!(overshot.fitted_scroll_offset(), 900);

    let undershot = axis(-3, 1000, 100);
    assert_eq!(undershot.fitted_scroll_offset(), 0);

    let inside = axis(123, 1000, 100);
    assert_eq!(inside.fitted_scroll_offset(), 123);
}

#[test]
fn virtual_max_offset_of_small_content_is_zero() {
    let viewport = axis(5, 40, 100);
    assert_eq!(viewport.virtual_max_offset(), 0);
    assert_eq!(viewport.fitted_scroll_offset(), 0);
    assert!(viewport.is_fully_visible());
}

#[test]
fn add_and_subtract_steps_reclamp() {
    let viewport = axis(10, 1000, 100);
    assert_eq!(viewport.add_steps(20).offset, 30);
    assert_eq!(viewport.add_steps(5000).offset, 900);
    assert_eq!(viewport.subtract_steps(50).offset, 0);
}

#[test]
fn clamped_arithmetic_stays_in_range() {
    let viewport = axis(890, 1000, 100);
    assert_eq!(viewport.add_clamped(100), 900);
    assert_eq!(viewport.sub_clamped(100), 790);
    assert_eq!(viewport.sub_clamped(5000), 0);
}

#[test]
fn virtual_offset_from_visual_uses_integer_arithmetic() {
    let viewport = axis(0, 1000, 100);
    // 900 * 50 / 100 = 450, no rounding bias.
    assert_eq!(viewport.virtual_offset_from_visual(50, 100), 450);
    // Clamped at the maximum.
    assert_eq!(viewport.virtual_offset_from_visual(100, 100), 900);
    assert_eq!(viewport.virtual_offset_from_visual(5000, 100), 900);
    // A degenerate range divides by one.
    assert_eq!(viewport.virtual_offset_from_visual(3, 0), 900);
}

#[test]
fn pressing_the_thumb_grabs_it() {
    let mut state = State::new();
    let mut status = Status::Enabled(BarStatus::Active);
    let geometry = Geometry {
        region: Region::Thumb(4),
        cursor_track_dx: 14,
        max_visual_range: 100,
        track_length: 200,
    };

    let result = update(
        &mut state,
        &mut status,
        PointerEvent::Press,
        Some(axis(0, 1000, 100)),
        true,
        ClickKind::Single,
        Some(geometry),
    );

    assert_eq!(result, ScrollResult::ThumbGrabbed(ClickKind::Single));
    assert_eq!(state.last_region, Some(Region::Thumb(4)));
    assert_eq!(status, Status::Enabled(BarStatus::Dragged));
}

#[test]
fn clicking_the_track_reports_the_virtual_offset() {
    let mut state = State::new();
    let mut status = Status::Enabled(BarStatus::Active);
    let geometry = Geometry {
        region: Region::TrackBeforeThumb(50),
        cursor_track_dx: 50,
        max_visual_range: 100,
        track_length: 200,
    };

    let result = update(
        &mut state,
        &mut status,
        PointerEvent::Press,
        Some(axis(700, 1000, 100)),
        true,
        ClickKind::Single,
        Some(geometry),
    );

    // 900 * 50 / 100 = 450.
    assert_eq!(
        result,
        ScrollResult::TrackClicked(ClickKind::Single, TrackSide::Before, 450)
    );
}

#[test]
fn dragging_the_thumb_reports_changed_offsets_only() {
    let mut state = State::new();
    let mut status = Status::Enabled(BarStatus::Active);
    state.last_region = Some(Region::Thumb(10));
    state.last_click_kind = Some(ClickKind::Single);

    let geometry = Geometry {
        region: Region::Thumb(10),
        cursor_track_dx: 60,
        max_visual_range: 100,
        track_length: 200,
    };

    // Thumb grabbed at 10, pointer at 60 over the track: visual offset 50.
    let result = update(
        &mut state,
        &mut status,
        PointerEvent::Move,
        Some(axis(0, 1000, 100)),
        true,
        ClickKind::Single,
        Some(geometry),
    );
    assert_eq!(result, ScrollResult::ThumbDragged(450));

    // The same movement over a viewport already at 450 changes nothing.
    let mut state2 = State::new();
    state2.last_region = Some(Region::Thumb(10));
    let result2 = update(
        &mut state2,
        &mut status,
        PointerEvent::Move,
        Some(axis(450, 1000, 100)),
        true,
        ClickKind::Single,
        Some(geometry),
    );
    assert_ne!(result2, ScrollResult::ThumbDragged(450));
}

#[test]
fn releasing_the_button_clears_the_region() {
    let mut state = State::new();
    let mut status = Status::Enabled(BarStatus::Dragged);
    state.last_region = Some(Region::Thumb(10));
    state.last_click_kind = Some(ClickKind::Double);

    update(
        &mut state,
        &mut status,
        PointerEvent::Release,
        Some(axis(0, 1000, 100)),
        false,
        ClickKind::Single,
        None,
    );

    assert_eq!(state.last_region, None);
    // Double-click detection continuity: the click kind is retained.
    assert_eq!(state.last_click_kind, Some(ClickKind::Double));
}

#[test]
fn missing_viewport_disables_the_scrollbar() {
    let mut state = State::new();
    let mut status = Status::Enabled(BarStatus::Active);

    let result = update(
        &mut state,
        &mut status,
        PointerEvent::Move,
        None,
        false,
        ClickKind::Single,
        None,
    );

    assert_eq!(status, Status::Disabled);
    assert_eq!(result, ScrollResult::AppearanceChanged);
}

#[test]
fn wheel_lines_invert_and_swap_with_shift() {
    assert_eq!(wheel_steps(WheelDelta::Lines { x: 0, y: 1 }, false, false), (0, -1));
    assert_eq!(wheel_steps(WheelDelta::Lines { x: 0, y: -1 }, false, false), (0, 1));
    // Shift swaps the axes.
    assert_eq!(wheel_steps(WheelDelta::Lines { x: 0, y: -1 }, true, false), (1, 0));
    // On a platform that swaps the report under shift, the report is
    // unswapped first, so the outcome matches the unswapped report.
    assert_eq!(wheel_steps(WheelDelta::Lines { x: -1, y: 0 }, true, true), (1, 0));
    assert_eq!(wheel_steps(WheelDelta::Steps { x: 2, y: -3 }, false, false), (-2, 3));
}

#[test]
fn wheel_scroll_reports_reclamped_offsets() {
    let mut area = ScrollArea::new().horizontal_scrollbar().vertical_scrollbar();
    let mut state = AreaState::new();
    let quiet = AxisInput { hovered: false, click: ClickKind::Single, geometry: None };

    let result = area.update(
        &mut state,
        Event::Wheel(WheelDelta::Lines { x: 0, y: -2 }),
        true,
        false,
        Some(axis(3, 100, 10)),
        Some(axis(895, 1000, 100)),
        quiet,
        quiet,
    );

    // Scrolling down by two steps: y is clamped at 897; x is unchanged but
    // still reported.
    assert_eq!(result, ScrollAreaResult::WheelScroll { x: 3, y: 897 });
}

#[test]
fn wheel_outside_the_bounds_is_ignored() {
    let mut area = ScrollArea::new().horizontal_scrollbar().vertical_scrollbar();
    let mut state = AreaState::new();
    let quiet = AxisInput { hovered: false, click: ClickKind::Single, geometry: None };

    let result = area.update(
        &mut state,
        Event::Wheel(WheelDelta::Lines { x: 0, y: -2 }),
        false,
        false,
        Some(axis(3, 100, 10)),
        Some(axis(0, 1000, 100)),
        quiet,
        quiet,
    );

    assert_eq!(result, ScrollAreaResult::Unhandled);
}

#[test]
fn wheel_without_a_change_is_not_reported() {
    let mut area = ScrollArea::new().horizontal_scrollbar().vertical_scrollbar();
    let mut state = AreaState::new();
    let quiet = AxisInput { hovered: false, click: ClickKind::Single, geometry: None };

    // Both axes are already at their maximum; scrolling further down moves
    // nothing.
    let result = area.update(
        &mut state,
        Event::Wheel(WheelDelta::Lines { x: 0, y: -1 }),
        true,
        false,
        Some(axis(90, 100, 10)),
        Some(axis(900, 1000, 100)),
        quiet,
        quiet,
    );

    assert_eq!(result, ScrollAreaResult::Unhandled);
}

#[test]
fn horizontal_scrollbar_reacts_before_vertical() {
    let mut area = ScrollArea::new().horizontal_scrollbar().vertical_scrollbar();
    let mut state = AreaState::new();

    let on_thumb = AxisInput {
        hovered: true,
        click: ClickKind::Single,
        geometry: Some(Geometry {
            region: Region::Thumb(2),
            cursor_track_dx: 10,
            max_visual_range: 50,
            track_length: 100,
        }),
    };

    let result = area.update(
        &mut state,
        Event::Pointer(PointerEvent::Press),
        false,
        false,
        Some(axis(0, 100, 10)),
        Some(axis(0, 1000, 100)),
        on_thumb,
        on_thumb,
    );

    assert_eq!(
        result,
        ScrollAreaResult::Horizontal(ScrollResult::ThumbGrabbed(ClickKind::Single))
    );
    assert_eq!(state.x_state.last_region, Some(Region::Thumb(2)));
    assert_eq!(state.y_state.last_region, None);
}

#[test]
fn virtual_max_offset_grows_with_the_content() {
    // With the viewport capacity fixed, a larger content never lowers the
    // maximum scroll offset.
    let mut previous = 0;
    for size in [0, 50, 100, 101, 500, 1000] {
        let vmax = axis(0, size, 100).virtual_max_offset();
        assert!(vmax >= previous);
        previous = vmax;
    }
}

#[test]
fn shift_swaps_the_wheel_axes_through_the_coordinator() {
    let mut area = ScrollArea::new().horizontal_scrollbar().vertical_scrollbar();
    let mut state = AreaState::new();
    let quiet = AxisInput { hovered: false, click: ClickKind::Single, geometry: None };

    // Record that shift is held.
    let result = area.update(
        &mut state,
        Event::ModifiersChanged { shift: true },
        true,
        false,
        Some(axis(3, 100, 10)),
        Some(axis(20, 1000, 100)),
        quiet,
        quiet,
    );
    assert_eq!(result, ScrollAreaResult::Unhandled);

    // A vertical wheel movement now scrolls horizontally.
    let result = area.update(
        &mut state,
        Event::Wheel(WheelDelta::Lines { x: 0, y: -2 }),
        true,
        false,
        Some(axis(3, 100, 10)),
        Some(axis(20, 1000, 100)),
        quiet,
        quiet,
    );
    assert_eq!(result, ScrollAreaResult::WheelScroll { x: 5, y: 20 });
}

#[test]
fn timer_fires_after_its_target() {
    let mut timer = Timer::new(1000, 100);
    assert_eq!(timer.target(), 1100);
    assert_eq!(timer.test(1050), (false, 0));
    assert_eq!(timer.test(1100), (false, 0));
    assert_eq!(timer.test(1180), (true, 80));

    assert_eq!(timer.set_at_interval(1180), 1280);
    assert_eq!(timer.test(1200), (false, 0));
}
