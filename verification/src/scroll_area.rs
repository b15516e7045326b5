//! Scroll area coordinator: composes a horizontal and a vertical scrollbar,
//! arbitrates wheel scrolling against scrollbar interaction, and tracks the
//! keyboard modifier that swaps the wheel axes.

use vstd::prelude::*;

use crate::scroll::{
    ClickKind, Geometry, PointerEvent, ScrollResult, Status, Viewport, spec_status_after,
    spec_transition,
};
use crate::scroll;

verus! {

/// A wheel movement, either in lines or already converted to whole steps.
/// Line deltas come directly from the platform; pixel deltas are converted
/// to steps by the embedding shell (one step at least, so that a small
/// movement is never lost) before they reach the coordinator.
#[derive(Clone, Copy, Debug, Eq, PartialEq, Structural)]
pub enum WheelDelta {
    /// A line-based wheel movement, in lines per axis.
    Lines {
        /// Horizontal lines.
        x: i64,
        /// Vertical lines.
        y: i64,
    },
    /// A pixel-based wheel movement already expressed in steps per axis.
    Steps {
        /// Horizontal steps.
        x: i64,
        /// Vertical steps.
        y: i64,
    },
}

/// An input event, as far as the scroll area cares about it.
#[derive(Clone, Copy, Debug, Eq, PartialEq, Structural)]
pub enum Event {
    /// A pointer event.
    Pointer(PointerEvent),
    /// The wheel was scrolled.
    Wheel(WheelDelta),
    /// The keyboard modifiers changed; `shift` tells whether shift is held.
    ModifiersChanged {
        /// Whether the shift modifier is now held.
        shift: bool,
    },
}

/// The result of handling an event. The `Horizontal` and `Vertical` variants
/// can be ignored if their respective scrollbars are not used.
#[derive(Clone, Copy, Debug, Eq, PartialEq, Structural)]
pub enum ScrollAreaResult {
    /// The horizontal scrollbar was interacted with.
    Horizontal(ScrollResult),
    /// The vertical scrollbar was interacted with.
    Vertical(ScrollResult),
    /// The wheel was scrolled, changing the x or y offset (or both).
    /// Contains the new virtual viewport offsets.
    WheelScroll {
        /// The new horizontal offset.
        x: i64,
        /// The new vertical offset.
        y: i64,
    },
    /// The event was not handled in any way.
    Unhandled,
}

/// The state of the scroll area: one scrollbar state per axis, and the
/// keyboard modifier needed to interpret wheel deltas.
#[derive(Clone, Copy, Debug, Eq, PartialEq, Structural)]
pub struct State {
    /// The state of the horizontal scrollbar.
    pub x_state: scroll::State,
    /// The state of the vertical scrollbar.
    pub y_state: scroll::State,
    /// Whether the shift modifier is held.
    pub shift_held: bool,
}

impl State {
    /// Well-formedness of both scrollbar states.
    pub open spec fn wf(&self) -> bool {
        self.x_state.wf() && self.y_state.wf()
    }

    /// A fresh state with no interaction recorded and no modifier held.
    pub fn new() -> (r: State)
        ensures
            r == (State {
                x_state: scroll::State { last_region: None, last_click_kind: None },
                y_state: scroll::State { last_region: None, last_click_kind: None },
                shift_held: false,
            }),
            r.wf(),
    {
        State { x_state: scroll::State::new(), y_state: scroll::State::new(), shift_held: false }
    }
}

/// The per-axis inputs of one update: what the embedding shell read off its
/// pixel geometry for that axis' scrollbar.
#[derive(Clone, Copy, Debug, Eq, PartialEq, Structural)]
pub struct AxisInput {
    /// Whether the pointer is over the union of that scrollbar's track and thumb.
    pub hovered: bool,
    /// The kind a press right now would have on that scrollbar.
    pub click: ClickKind,
    /// The whole-pixel measurements under the current pointer position, or
    /// `None` when the scrollbar has no layout or the pointer no position.
    pub geometry: Option<Geometry>,
}

impl AxisInput {
    /// Well-formedness of the measurements.
    pub open spec fn wf(&self) -> bool {
        match self.geometry {
            Option::Some(g) => g.wf(),
            Option::None => true,
        }
    }
}

/// A scroll area with an optional scrollbar per axis. Only the displayed
/// status of each bar lives here; the track and thumb geometry is the
/// embedding shell's.
#[derive(Clone, Copy, Debug, Eq, PartialEq, Structural)]
pub struct ScrollArea {
    /// The status of the horizontal scrollbar, if one is enabled.
    pub x_scrollbar: Option<Status>,
    /// The status of the vertical scrollbar, if one is enabled.
    pub y_scrollbar: Option<Status>,
}

/// The pointer class of an event: wheel and modifier events reach the
/// scrollbars as mere "other" events.
pub open spec fn spec_pointer_class(event: Event) -> PointerEvent {
    match event {
        Event::Pointer(p) => p,
        Event::Wheel(_) => PointerEvent::Other,
        Event::ModifiersChanged { .. } => PointerEvent::Other,
    }
}

/// The signed step movement of a wheel delta. A negative wheel value means
/// scrolling down or right, which increases the offset, so both axes are
/// sign-inverted. While shift is held the two axes swap roles; on a platform
/// that itself swaps the reported axes under shift, the report is first
/// swapped back.
pub open spec fn spec_wheel_steps(delta: WheelDelta, shift: bool, platform_swaps_axes: bool) -> (int, int) {
    match delta {
        WheelDelta::Lines { x, y } => {
            let xy = if platform_swaps_axes && shift { (y, x) } else { (x, y) };
            let m = if !shift { xy } else { (xy.1, xy.0) };
            (-m.0, -m.1)
        },
        WheelDelta::Steps { x, y } => (-x as int, -y as int),
    }
}

/// The signed step movement of a wheel delta; see [`spec_wheel_steps`].
pub fn wheel_steps(delta: WheelDelta, shift: bool, platform_swaps_axes: bool) -> (r: (i64, i64))
    requires
        wheel_delta_bounded(delta),
    ensures
        (r.0 as int, r.1 as int) == spec_wheel_steps(delta, shift, platform_swaps_axes),
{
    match delta {
        WheelDelta::Lines { x, y } => {
            let (x, y) = if platform_swaps_axes && shift { (y, x) } else { (x, y) };
            let (mx, my) = if !shift { (x, y) } else { (y, x) };
            (-mx, -my)
        },
        WheelDelta::Steps { x, y } => (-x, -y),
    }
}

/// The wheel delta values stay clear of the integer limits, so that
/// sign-inversion and clamped addition cannot overflow.
pub open spec fn wheel_delta_bounded(delta: WheelDelta) -> bool {
    match delta {
        WheelDelta::Lines { x, y } => {
            -0x1000_0000_0000_0000 <= x <= 0x1000_0000_0000_0000
                && -0x1000_0000_0000_0000 <= y <= 0x1000_0000_0000_0000
        },
        WheelDelta::Steps { x, y } => {
            -0x1000_0000_0000_0000 <= x <= 0x1000_0000_0000_0000
                && -0x1000_0000_0000_0000 <= y <= 0x1000_0000_0000_0000
        },
    }
}

/// The old and the wheel-scrolled offset of one axis: without a viewport
/// both are 0, otherwise the current offset and the clamped sum.
pub open spec fn spec_wheel_axis(viewport: Option<Viewport>, steps: int) -> (int, int) {
    match viewport {
        Option::Some(v) => (v.offset as int, scroll::clamp_to(v.offset + steps, v.spec_virtual_max_offset())),
        Option::None => (0, 0),
    }
}

impl ScrollArea {
    /// Creates a scroll area with no scrollbars enabled.
    pub fn new() -> (r: ScrollArea)
        ensures
            r == (ScrollArea { x_scrollbar: None, y_scrollbar: None }),
    {
        ScrollArea { x_scrollbar: None, y_scrollbar: None }
    }

    /// Enables the horizontal scrollbar.
    pub fn horizontal_scrollbar(self) -> (r: ScrollArea)
        ensures
            r == (ScrollArea {
                x_scrollbar: Some(Status::Enabled(scroll::BarStatus::Active)),
                ..self
            }),
    {
        ScrollArea { x_scrollbar: Some(Status::Enabled(scroll::BarStatus::Active)), ..self }
    }

    /// Enables the vertical scrollbar.
    pub fn vertical_scrollbar(self) -> (r: ScrollArea)
        ensures
            r == (ScrollArea {
                y_scrollbar: Some(Status::Enabled(scroll::BarStatus::Active)),
                ..self
            }),
    {
        ScrollArea { y_scrollbar: Some(Status::Enabled(scroll::BarStatus::Active)), ..self }
    }

    /// Updates the state of the scroll area for one event.
    ///
    /// A modifier change records the shift state and is still shown to the
    /// scrollbars. A wheel movement outside the area's bounds is ignored;
    /// inside, it is converted to step deltas, both axis offsets are
    /// re-clamped, and a wheel scroll is reported only if an offset actually
    /// changes. Every other event goes to the horizontal scrollbar first and
    /// then, only if the horizontal one did not react, to the vertical one.
    #[verifier::rlimit(100)]
    pub fn update(
        &mut self,
        state: &mut State,
        event: Event,
        cursor_over_bounds: bool,
        platform_swaps_axes: bool,
        x_viewport: Option<Viewport>,
        y_viewport: Option<Viewport>,
        x_input: AxisInput,
        y_input: AxisInput,
    ) -> (r: ScrollAreaResult)
        requires
            old(state).wf(),
            x_input.wf(),
            y_input.wf(),
            match x_viewport {
                Option::Some(v) => v.wf() && -0x1000_0000_0000_0000 <= v.offset
                    <= 0x1000_0000_0000_0000,
                Option::None => true,
            },
            match y_viewport {
                Option::Some(v) => v.wf() && -0x1000_0000_0000_0000 <= v.offset
                    <= 0x1000_0000_0000_0000,
                Option::None => true,
            },
            match event {
                Event::Wheel(delta) => wheel_delta_bounded(delta),
                _ => true,
            },
        ensures
            final(state).wf(),
            final(state).shift_held == match event {
                Event::ModifiersChanged { shift } => shift,
                _ => old(state).shift_held,
            },
            // A wheel movement outside the bounds is ignored entirely.
            (event is Wheel && !cursor_over_bounds) ==> {
                &&& r == ScrollAreaResult::Unhandled
                &&& *final(state) == *old(state)
                &&& *final(self) == *old(self)
            },
            // A wheel movement inside the bounds that changes an offset
            // reports the re-clamped offsets of both axes and changes
            // nothing else.
            (event is Wheel && cursor_over_bounds) ==> {
                let delta = event->Wheel_0;
                let steps = spec_wheel_steps(delta, old(state).shift_held, platform_swaps_axes);
                let x_axis = spec_wheel_axis(x_viewport, steps.0);
                let y_axis = spec_wheel_axis(y_viewport, steps.1);
                if x_axis.0 != x_axis.1 || y_axis.0 != y_axis.1 {
                    &&& r == (ScrollAreaResult::WheelScroll { x: x_axis.1 as i64, y: y_axis.1 as i64 })
                    &&& *final(state) == *old(state)
                    &&& *final(self) == *old(self)
                } else {
                    let t = spec_forward(
                        *old(self),
                        *old(state),
                        spec_pointer_class(event),
                        x_viewport,
                        y_viewport,
                        x_input,
                        y_input,
                    );
                    *final(self) == t.0 && *final(state) == t.1 && r == t.2
                }
            },
            !(event is Wheel) ==> ({
                let state_after_modifiers = State {
                    shift_held: match event {
                        Event::ModifiersChanged { shift } => shift,
                        _ => old(state).shift_held,
                    },
                    ..*old(state)
                };
                let t = spec_forward(
                    *old(self),
                    state_after_modifiers,
                    spec_pointer_class(event),
                    x_viewport,
                    y_viewport,
                    x_input,
                    y_input,
                );
                *final(self) == t.0 && *final(state) == t.1 && r == t.2
            }),
    {
        match event {
            Event::ModifiersChanged { shift } => {
                state.shift_held = shift;
            },
            Event::Wheel(delta) => {
                if !cursor_over_bounds {
                    return ScrollAreaResult::Unhandled;
                }

                let (dx, dy) = wheel_steps(delta, state.shift_held, platform_swaps_axes);

                let (x_old, x_new) = match x_viewport {
                    Some(x) => (x.offset, x.add_clamped(dx)),
                    None => (0, 0),
                };
                let (y_old, y_new) = match y_viewport {
                    Some(y) => (y.offset, y.add_clamped(dy)),
                    None => (0, 0),
                };

                if x_old != x_new || y_old != y_new {
                    return ScrollAreaResult::WheelScroll { x: x_new, y: y_new };
                }
            },
            Event::Pointer(_) => {},
        }

        let pointer = match event {
            Event::Pointer(p) => p,
            _ => PointerEvent::Other,
        };

        self.forward(state, pointer, x_viewport, y_viewport, x_input, y_input)
    }

    /// Forwards one event to the horizontal scrollbar and then, only if the
    /// horizontal one did not react, to the vertical one.
    #[verifier::rlimit(100)]
    fn forward(
        &mut self,
        state: &mut State,
        pointer: PointerEvent,
        x_viewport: Option<Viewport>,
        y_viewport: Option<Viewport>,
        x_input: AxisInput,
        y_input: AxisInput,
    ) -> (r: ScrollAreaResult)
        requires
            old(state).wf(),
            x_input.wf(),
            y_input.wf(),
            match x_viewport {
                Option::Some(v) => v.wf(),
                Option::None => true,
            },
            match y_viewport {
                Option::Some(v) => v.wf(),
                Option::None => true,
            },
        ensures
            ({
                let t = spec_forward(
                    *old(self),
                    *old(state),
                    pointer,
                    x_viewport,
                    y_viewport,
                    x_input,
                    y_input,
                );
                *final(self) == t.0 && *final(state) == t.1 && r == t.2
            }),
            final(state).wf(),
    {
        if let Some(mut status) = self.x_scrollbar {
            let result = scroll::update(
                &mut state.x_state,
                &mut status,
                pointer,
                x_viewport,
                x_input.hovered,
                x_input.click,
                x_input.geometry,
            );
            self.x_scrollbar = Some(status);

            if !matches!(result, ScrollResult::Unhandled) {
                return ScrollAreaResult::Horizontal(result);
            }
        }

        if let Some(mut status) = self.y_scrollbar {
            let result = scroll::update(
                &mut state.y_state,
                &mut status,
                pointer,
                y_viewport,
                y_input.hovered,
                y_input.click,
                y_input.geometry,
            );
            self.y_scrollbar = Some(status);

            if !matches!(result, ScrollResult::Unhandled) {
                return ScrollAreaResult::Vertical(result);
            }
        }

        ScrollAreaResult::Unhandled
    }

}

/// One scrollbar's transition for a forwarded event: the new status, the new
/// scrollbar state, and the reported result, if any.
pub open spec fn spec_forward_one(
    status: Status,
    bar_state: scroll::State,
    pointer: PointerEvent,
    viewport: Option<Viewport>,
    input: AxisInput,
) -> (Status, scroll::State, Option<ScrollResult>) {
    let (state1, raw) = spec_transition(
        bar_state,
        pointer,
        viewport,
        input.hovered,
        input.click,
        input.geometry,
    );
    let status1 = if viewport is None {
        Status::Disabled
    } else {
        spec_status_after(status, state1.last_region is Some, input.hovered)
    };
    let result = if status1 != status && raw is Unhandled {
        ScrollResult::AppearanceChanged
    } else {
        raw
    };
    (status1, state1, if result is Unhandled { Option::None } else { Option::Some(result) })
}

/// The transition of forwarding an event to the two scrollbars: the event
/// reaches the horizontal scrollbar first; only when that one does not react
/// does it reach the vertical one, and the result of the first scrollbar
/// that reacts is reported with its axis.
pub open spec fn spec_forward(
    area: ScrollArea,
    state: State,
    pointer: PointerEvent,
    x_viewport: Option<Viewport>,
    y_viewport: Option<Viewport>,
    x_input: AxisInput,
    y_input: AxisInput,
) -> (ScrollArea, State, ScrollAreaResult) {
    let after_x = match area.x_scrollbar {
        Option::Some(x_status) => {
            let (x_status1, x_state1, x_result) = spec_forward_one(
                x_status,
                state.x_state,
                pointer,
                x_viewport,
                x_input,
            );
            (
                ScrollArea { x_scrollbar: Option::Some(x_status1), ..area },
                State { x_state: x_state1, ..state },
                x_result,
            )
        },
        Option::None => (area, state, Option::<ScrollResult>::None),
    };
    match after_x.2 {
        Option::Some(x_result) => (after_x.0, after_x.1, ScrollAreaResult::Horizontal(x_result)),
        Option::None => match area.y_scrollbar {
            Option::Some(y_status) => {
                let (y_status1, y_state1, y_result) = spec_forward_one(
                    y_status,
                    after_x.1.y_state,
                    pointer,
                    y_viewport,
                    y_input,
                );
                (
                    ScrollArea { y_scrollbar: Option::Some(y_status1), ..after_x.0 },
                    State { y_state: y_state1, ..after_x.1 },
                    match y_result {
                        Option::Some(res) => ScrollAreaResult::Vertical(res),
                        Option::None => ScrollAreaResult::Unhandled,
                    },
                )
            },
            Option::None => (after_x.0, after_x.1, ScrollAreaResult::Unhandled),
        },
    }
}

} // verus!
