//! One-axis scroll model and scrollbar interaction engine.
//!
//! The [`Viewport`] is the pure arithmetic core of virtual scrolling along a
//! single axis: an integer offset and size in steps, together with how many
//! steps fit in the visible part of the content. The scrollbar engine is a
//! state machine over pointer interactions with a track and a thumb; it works
//! on whole-pixel measurements that the embedding shell derives from its own
//! (possibly fractional) scrollbar geometry.

use vstd::prelude::*;

verus! {

/// Bound on the pixel measurements that the scrollbar engine accepts. Far
/// larger than any screen; it keeps all pixel arithmetic inside `i64`.
pub const PIXEL_RANGE_LIMIT: i64 = 0x4000_0000;

/// Properties of the one-dimensional viewport of a scrollbar.
#[derive(Clone, Copy, Debug, Eq, PartialEq, Structural)]
pub struct Viewport {
    /// Virtual offset in steps.
    pub offset: i64,
    /// Virtual length in steps.
    pub size: i64,
    /// The number of steps that completely fit in the visible part of the
    /// content, in pixels divided by the pixel size of one step, rounded
    /// down. The embedding shell computes this from its pixel geometry.
    pub steps_floor: i64,
    /// The number of steps that completely or partially fit in the visible
    /// part of the content: the same ratio rounded up.
    pub steps_ceil: i64,
}

impl Viewport {
    /// Well-formedness: the size is non-negative and the two step counts are
    /// the floor and the ceiling of one and the same ratio.
    pub open spec fn wf(&self) -> bool {
        &&& 0 <= self.size
        &&& 0 <= self.steps_floor
        &&& self.steps_ceil == self.steps_floor || self.steps_ceil == self.steps_floor + 1
    }

    /// The maximum offset the viewport should be put at, as a mathematical
    /// value: the last data is in view and the viewport is completely
    /// filled, unless the data already fits completely.
    pub open spec fn spec_virtual_max_offset(&self) -> int {
        if self.size - self.steps_floor >= 0 {
            self.size - self.steps_floor
        } else {
            0
        }
    }

    /// The scroll offset clamped to `[0, virtual_max_offset]`, as a
    /// mathematical value.
    pub open spec fn spec_fitted_offset(&self) -> int {
        if self.offset < 0 {
            0
        } else if self.offset > self.spec_virtual_max_offset() {
            self.spec_virtual_max_offset()
        } else {
            self.offset as int
        }
    }

    /// Creates a new `Viewport`.
    pub fn new(offset: i64, size: i64, steps_floor: i64, steps_ceil: i64) -> (r: Viewport)
        requires
            0 <= size,
            0 <= steps_floor,
            steps_ceil == steps_floor || steps_ceil == steps_floor + 1,
        ensures
            r == (Viewport { offset, size, steps_floor, steps_ceil }),
            r.wf(),
    {
        Viewport { offset, size, steps_floor, steps_ceil }
    }

    /// Adds the number of steps to the offset, reclamped into
    /// `[0, virtual_max_offset]`. [`Viewport::add_clamped`] returns the
    /// same new offset without building a viewport.
    pub fn add_steps(self, steps: i64) -> (r: Viewport)
        requires
            self.wf(),
            i64::MIN <= self.offset + steps <= i64::MAX,
        ensures
            r == (Viewport {
                offset: clamp_to(self.offset + steps, self.spec_virtual_max_offset()) as i64,
                ..self
            }),
            r.wf(),
    {
        Viewport { offset: self.add_clamped(steps), ..self }
    }

    /// Subtracts the number of steps from the offset, reclamped into
    /// `[0, virtual_max_offset]`. [`Viewport::sub_clamped`] returns the
    /// same new offset without building a viewport.
    pub fn subtract_steps(self, steps: i64) -> (r: Viewport)
        requires
            self.wf(),
            i64::MIN <= self.offset - steps <= i64::MAX,
        ensures
            r == (Viewport {
                offset: clamp_to(self.offset - steps, self.spec_virtual_max_offset()) as i64,
                ..self
            }),
            r.wf(),
    {
        Viewport { offset: self.sub_clamped(steps), ..self }
    }

    /// Clamps the scroll offset to a valid value in `[0, virtual_max_offset]`.
    pub fn fitted_scroll_offset(&self) -> (r: i64)
        requires
            self.wf(),
        ensures
            r == self.spec_fitted_offset(),
            0 <= r <= self.spec_virtual_max_offset(),
    {
        let fitted = self.offset.min(self.virtual_max_offset());
        if fitted < 0 {
            0
        } else {
            fitted
        }
    }

    /// The number of steps that completely or partially fit in the viewport.
    pub fn viewport_steps_ceil(&self) -> (r: i64)
        ensures
            r == self.steps_ceil,
    {
        self.steps_ceil
    }

    /// The number of steps that completely fit in the viewport.
    pub fn viewport_steps_floor(&self) -> (r: i64)
        ensures
            r == self.steps_floor,
    {
        self.steps_floor
    }

    /// The maximum offset we should put the viewport at. The maximum scroll
    /// offset is such that the last data is in the viewport and the viewport
    /// is completely filled: no half-empty viewport unless the data already
    /// fits completely.
    pub fn virtual_max_offset(&self) -> (r: i64)
        requires
            self.wf(),
        ensures
            r == self.spec_virtual_max_offset(),
            0 <= r,
    {
        let d = self.size - self.steps_floor;
        if d > 0 {
            d
        } else {
            0
        }
    }

    /// Whether the content is fully visible in the viewport.
    pub fn is_fully_visible(&self) -> (r: bool)
        requires
            self.wf(),
        ensures
            r == (self.size <= self.steps_floor),
    {
        self.size <= self.steps_floor
    }

    /// The new offset after adding `steps`, clamped to `[0, virtual_max_offset]`.
    pub fn add_clamped(self, steps: i64) -> (r: i64)
        requires
            self.wf(),
            i64::MIN <= self.offset + steps <= i64::MAX,
        ensures
            r == clamp_to(self.offset + steps, self.spec_virtual_max_offset()),
            0 <= r <= self.spec_virtual_max_offset(),
    {
        let sum = self.offset + steps;
        let fitted = sum.min(self.virtual_max_offset());
        if fitted < 0 {
            0
        } else {
            fitted
        }
    }

    /// The new offset after subtracting `steps`, clamped to
    /// `[0, virtual_max_offset]`.
    pub fn sub_clamped(self, steps: i64) -> (r: i64)
        requires
            self.wf(),
            i64::MIN <= self.offset - steps <= i64::MAX,
        ensures
            r == clamp_to(self.offset - steps, self.spec_virtual_max_offset()),
            0 <= r <= self.spec_virtual_max_offset(),
    {
        let diff = self.offset - steps;
        let fitted = diff.min(self.virtual_max_offset());
        if fitted < 0 {
            0
        } else {
            fitted
        }
    }

    /// The virtual offset that corresponds to a visual pixel offset of the
    /// thumb, using integer arithmetic to avoid rounding bias. The result is
    /// always inside `[0, virtual_max_offset]`.
    pub fn virtual_offset_from_visual(&self, visual_offset: i64, max_visual_range: i64) -> (r: i64)
        requires
            self.wf(),
            0 <= visual_offset,
        ensures
            r == spec_virtual_offset_from_visual(*self, visual_offset as int, max_visual_range as int),
            0 <= r <= self.spec_virtual_max_offset(),
    {
        let scroll_max = self.virtual_max_offset();
        let range: i64 = if max_visual_range < 1 {
            1
        } else {
            max_visual_range
        };
        proof {
            assert(0 <= scroll_max * visual_offset <= i64::MAX * i64::MAX) by (nonlinear_arith)
                requires
                    0 <= scroll_max <= i64::MAX,
                    0 <= visual_offset <= i64::MAX,
            ;
        }
        let q: i128 = (scroll_max as i128) * (visual_offset as i128) / (range as i128);
        if q < scroll_max as i128 {
            q as i64
        } else {
            scroll_max
        }
    }
}

/// Clamp `v` into `[0, hi]` (with `hi` at least 0), matching a `min` with the
/// upper bound followed by a `max` with 0.
pub open spec fn clamp_to(v: int, hi: int) -> int {
    if (if v < hi { v } else { hi }) < 0 {
        0
    } else if v < hi {
        v
    } else {
        hi
    }
}

/// The virtual offset for a visual pixel offset:
/// `min(virtual_max_offset * visual / max(1, range), virtual_max_offset)`.
pub open spec fn spec_virtual_offset_from_visual(scroll: Viewport, visual: int, range: int) -> int {
    let scroll_max = scroll.spec_virtual_max_offset();
    let r = if range < 1 { 1int } else { range };
    let q = scroll_max * visual / r;
    if q < scroll_max {
        q
    } else {
        scroll_max
    }
}

/// A pointer event, as far as the scrollbar engine cares about it. The
/// embedding shell maps primary-button and touch events onto these classes;
/// every other event is `Other`.
#[derive(Clone, Copy, Debug, Eq, PartialEq, Structural)]
pub enum PointerEvent {
    /// The primary button was pressed, or a finger touched down.
    Press,
    /// The primary button was released, or a finger lifted.
    Release,
    /// The pointer or a finger moved.
    Move,
    /// Any other event.
    Other,
}

/// The kind of a click, as classified by the embedding shell's double-click
/// timing heuristic.
#[derive(Clone, Copy, Debug, Eq, PartialEq, Structural)]
pub enum ClickKind {
    /// A single click.
    Single,
    /// A double click.
    Double,
    /// A triple click.
    Triple,
}

/// Denotes whether a track click occurred before or after the thumb.
#[derive(Clone, Copy, Debug, Eq, PartialEq, Structural)]
pub enum TrackSide {
    /// The click happened above (vertical) or to the left (horizontal) of the thumb.
    Before,
    /// The click happened below (vertical) or to the right (horizontal) of the thumb.
    After,
}

/// The regions of a scrollbar along its axis, each with the pixel offset of
/// the pointer from the leading edge of the thumb or the track.
#[derive(Clone, Copy, Debug, Eq, PartialEq, Structural)]
pub enum Region {
    /// The thumb region, and the pixel offset from the leading edge of the thumb.
    Thumb(i64),
    /// The track region before the thumb, and the pixel offset from the
    /// leading edge of the track.
    TrackBeforeThumb(i64),
    /// The track region after the thumb, and the pixel offset from the
    /// leading edge of the track.
    TrackAfterThumb(i64),
}

impl Region {
    /// The pixel offset payload of the region.
    pub open spec fn pixel_offset(&self) -> int {
        match *self {
            Region::Thumb(v) => v as int,
            Region::TrackBeforeThumb(v) => v as int,
            Region::TrackAfterThumb(v) => v as int,
        }
    }
}

/// The possible status of a scrollbar.
#[derive(Clone, Copy, Debug, Eq, PartialEq, Structural)]
pub enum Status {
    /// The scrollbar is enabled.
    Enabled(BarStatus),
    /// The scrollbar is disabled.
    Disabled,
}

/// The possible status of an enabled scrollbar.
#[derive(Clone, Copy, Debug, Eq, PartialEq, Structural)]
pub enum BarStatus {
    /// The scrollbar is active.
    Active,
    /// The scrollbar is being hovered over.
    Hovered,
    /// The scrollbar is being interacted with in some manner.
    Dragged,
}

/// The result of handling an event.
#[derive(Clone, Copy, Debug, Eq, PartialEq, Structural)]
pub enum ScrollResult {
    /// The event caused the thumb to be dragged. Contains the virtual
    /// viewport offset that corresponds to the thumb's location.
    ThumbDragged(i64),
    /// The track before or after the thumb was clicked. Stores the kind of
    /// click, which side of the thumb the track was clicked, and the virtual
    /// offset that corresponds to the location of the pointer.
    TrackClicked(ClickKind, TrackSide, i64),
    /// The track was clicked in the past and the button is still held.
    /// Stores the kind of click, the side of the thumb, and the virtual
    /// offset that corresponds to the current pointer location.
    TrackHeld(ClickKind, TrackSide, i64),
    /// The thumb was grabbed. This in itself is not a viewport change.
    ThumbGrabbed(ClickKind),
    /// No change to the viewport, but a redraw is wanted, typically after
    /// the scrollbar's status changed.
    AppearanceChanged,
    /// The event was not handled in any way.
    Unhandled,
}

/// The interaction state of one scrollbar: the region where the pointer went
/// down, if the button is still held, and the kind of the last click. The
/// embedding shell owns the click timing; the engine stores only the kind.
#[derive(Clone, Copy, Debug, Eq, PartialEq, Structural)]
pub struct State {
    /// The region in which the primary button was pressed, while it is held.
    pub last_region: Option<Region>,
    /// The kind of the last press handled by this scrollbar.
    pub last_click_kind: Option<ClickKind>,
}

impl State {
    /// Well-formedness: a stored region payload is a sane pixel offset.
    pub open spec fn wf(&self) -> bool {
        match self.last_region {
            Option::Some(region) => 0 <= region.pixel_offset() <= PIXEL_RANGE_LIMIT,
            Option::None => true,
        }
    }

    /// A fresh state with no interaction recorded.
    pub fn new() -> (r: State)
        ensures
            r.last_region is None,
            r.last_click_kind is None,
            r.wf(),
    {
        State { last_region: None, last_click_kind: None }
    }
}

/// The whole-pixel measurements of the scrollbar under the current pointer
/// position, as the embedding shell reads them off its own geometry.
#[derive(Clone, Copy, Debug, Eq, PartialEq, Structural)]
pub struct Geometry {
    /// The region of the scrollbar the pointer is in.
    pub region: Region,
    /// The pointer's pixel offset from the leading edge of the track.
    pub cursor_track_dx: i64,
    /// The amount of space the thumb has to move around: the track length
    /// minus the thumb length, at least 0.
    pub max_visual_range: i64,
    /// The length of the track in pixels.
    pub track_length: i64,
}

impl Geometry {
    /// Well-formedness: every measurement is a sane pixel quantity.
    pub open spec fn wf(&self) -> bool {
        &&& 0 <= self.region.pixel_offset() <= PIXEL_RANGE_LIMIT
        &&& -PIXEL_RANGE_LIMIT <= self.cursor_track_dx <= PIXEL_RANGE_LIMIT
        &&& 0 <= self.max_visual_range <= PIXEL_RANGE_LIMIT
        &&& 0 <= self.track_length <= PIXEL_RANGE_LIMIT
    }
}

/// The pixel offset a track click scrolls to: the pointer's offset from the
/// leading edge of the track, kept inside the track.
pub open spec fn spec_track_click_offset(cursor_track_dx: int, track_length: int) -> int {
    let capped = if cursor_track_dx < track_length - 1 { cursor_track_dx } else { track_length - 1 };
    if capped < 0 { 0int } else { capped }
}

/// The visual pixel offset of the thumb while dragged: the pointer's offset
/// from the leading edge of the track minus the in-thumb grab offset, kept
/// inside the visual range.
pub open spec fn spec_thumb_offset_from_grab(cursor_track_dx: int, grab: int, range: int) -> int {
    let capped = if cursor_track_dx - grab < range { cursor_track_dx - grab } else { range };
    if capped < 0 { 0int } else { capped }
}

/// The kind the last click had, or a single click when none was recorded.
pub open spec fn spec_kind_or_single(kind: Option<ClickKind>) -> ClickKind {
    match kind {
        Option::Some(k) => k,
        Option::None => ClickKind::Single,
    }
}

/// The status a scrollbar shows after an update: a disabled bar stays
/// disabled; an enabled one is dragged while an interaction is recorded,
/// hovered while the pointer is over it, and active otherwise.
pub open spec fn spec_status_after(status: Status, dragging: bool, hovered: bool) -> Status {
    if status is Enabled {
        if dragging {
            Status::Enabled(BarStatus::Dragged)
        } else if hovered {
            Status::Enabled(BarStatus::Hovered)
        } else {
            Status::Enabled(BarStatus::Active)
        }
    } else {
        Status::Disabled
    }
}

/// The state and raw result of one scrollbar update, before the
/// appearance-change report: the transition function of the interaction
/// state machine described on [`update`].
pub open spec fn spec_transition(
    state: State,
    event: PointerEvent,
    scroll: Option<Viewport>,
    hovered: bool,
    click: ClickKind,
    geometry: Option<Geometry>,
) -> (State, ScrollResult) {
    let s0 = State {
        last_region: if event is Release { Option::None } else { state.last_region },
        ..state
    };
    match scroll {
        Option::None => (s0, ScrollResult::Unhandled),
        Option::Some(scroll) => match geometry {
            Option::None => (s0, ScrollResult::Unhandled),
            Option::Some(g) => if event is Press && hovered {
                let s1 = State {
                    last_region: Option::Some(g.region),
                    last_click_kind: Option::Some(click),
                };
                let result = match g.region {
                    Region::Thumb(_) => ScrollResult::ThumbGrabbed(click),
                    Region::TrackBeforeThumb(v) => ScrollResult::TrackClicked(
                        click,
                        TrackSide::Before,
                        spec_virtual_offset_from_visual(scroll, v as int, g.max_visual_range as int) as i64,
                    ),
                    Region::TrackAfterThumb(v) => ScrollResult::TrackClicked(
                        click,
                        TrackSide::After,
                        spec_virtual_offset_from_visual(scroll, v as int, g.max_visual_range as int) as i64,
                    ),
                };
                (s1, result)
            } else {
                match s0.last_region {
                    Option::Some(Region::Thumb(grab)) => if event is Move {
                        let visual = spec_thumb_offset_from_grab(
                            g.cursor_track_dx as int,
                            grab as int,
                            g.max_visual_range as int,
                        );
                        let virtual_offset = spec_virtual_offset_from_visual(
                            scroll,
                            visual,
                            g.max_visual_range as int,
                        );
                        if virtual_offset != scroll.offset {
                            (s0, ScrollResult::ThumbDragged(virtual_offset as i64))
                        } else {
                            (s0, ScrollResult::Unhandled)
                        }
                    } else {
                        (s0, ScrollResult::Unhandled)
                    },
                    Option::Some(Region::TrackBeforeThumb(_)) => if g.region is TrackBeforeThumb {
                        let visual = spec_track_click_offset(
                            g.cursor_track_dx as int,
                            g.track_length as int,
                        );
                        (s0, ScrollResult::TrackHeld(
                            spec_kind_or_single(s0.last_click_kind),
                            TrackSide::Before,
                            spec_virtual_offset_from_visual(scroll, visual, g.max_visual_range as int) as i64,
                        ))
                    } else {
                        (s0, ScrollResult::Unhandled)
                    },
                    Option::Some(Region::TrackAfterThumb(_)) => if g.region is TrackAfterThumb {
                        let visual = spec_track_click_offset(
                            g.cursor_track_dx as int,
                            g.track_length as int,
                        );
                        (s0, ScrollResult::TrackHeld(
                            spec_kind_or_single(s0.last_click_kind),
                            TrackSide::After,
                            spec_virtual_offset_from_visual(scroll, visual, g.max_visual_range as int) as i64,
                        ))
                    } else {
                        (s0, ScrollResult::Unhandled)
                    },
                    Option::None => (s0, ScrollResult::Unhandled),
                }
            },
        },
    }
}

/// Updates the state of one scrollbar for one event.
///
/// The state machine: a release always clears the recorded region. Without a
/// viewport the bar is disabled and handles nothing. A press while the
/// pointer is over the bar records the region and the click kind, and grabs
/// the thumb or reports a track click at the corresponding virtual offset.
/// While the thumb is held, pointer movement drags it and reports the new
/// virtual offset whenever it differs from the current one. While the track
/// is held on one side of the thumb and the pointer is still on that side,
/// every update reports the held track and the virtual offset under the
/// pointer; throttling is the caller's job. When the raw result is nothing
/// but the displayed status changed, the update reports an appearance change.
///
/// `hovered` says whether the pointer is over the union of track and thumb;
/// `click` is the kind a press right now would have, from the embedding
/// shell's click timing; `geometry` carries the whole-pixel measurements
/// under the current pointer position, or `None` when the scrollbar has no
/// layout or the pointer no position.
pub fn update(
    state: &mut State,
    status: &mut Status,
    event: PointerEvent,
    scroll_state: Option<Viewport>,
    hovered: bool,
    click: ClickKind,
    geometry: Option<Geometry>,
) -> (r: ScrollResult)
    requires
        old(state).wf(),
        match scroll_state {
            Option::Some(scroll) => scroll.wf(),
            Option::None => true,
        },
        match geometry {
            Option::Some(g) => g.wf(),
            Option::None => true,
        },
    ensures
        ({
            let (s1, raw) = spec_transition(*old(state), event, scroll_state, hovered, click, geometry);
            let status1 = if scroll_state is None {
                Status::Disabled
            } else {
                spec_status_after(*old(status), s1.last_region is Some, hovered)
            };
            &&& *final(state) == s1
            &&& *final(status) == status1
            &&& r == if status1 != *old(status) && raw is Unhandled {
                ScrollResult::AppearanceChanged
            } else {
                raw
            }
        }),
        final(state).wf(),
{
    if matches!(event, PointerEvent::Release) {
        state.last_region = None;
    }

    let scroll = match scroll_state {
        Some(scroll) => scroll,
        None => {
            let result = if matches!(*status, Status::Enabled(_)) {
                ScrollResult::AppearanceChanged
            } else {
                ScrollResult::Unhandled
            };
            *status = Status::Disabled;
            return result;
        },
    };

    let mut raw = ScrollResult::Unhandled;

    if let Some(g) = geometry {
        if matches!(event, PointerEvent::Press) && hovered {
            state.last_region = Some(g.region);
            state.last_click_kind = Some(click);

            raw = match g.region {
                Region::Thumb(_) => ScrollResult::ThumbGrabbed(click),
                Region::TrackBeforeThumb(v) => ScrollResult::TrackClicked(
                    click,
                    TrackSide::Before,
                    scroll.virtual_offset_from_visual(v, g.max_visual_range),
                ),
                Region::TrackAfterThumb(v) => ScrollResult::TrackClicked(
                    click,
                    TrackSide::After,
                    scroll.virtual_offset_from_visual(v, g.max_visual_range),
                ),
            };
        } else if let Some(last_region) = state.last_region {
            match last_region {
                Region::Thumb(grab) => {
                    if matches!(event, PointerEvent::Move) {
                        let moved = g.cursor_track_dx - grab;
                        let capped = if moved < g.max_visual_range {
                            moved
                        } else {
                            g.max_visual_range
                        };
                        let visual: i64 = if capped < 0 {
                            0
                        } else {
                            capped
                        };
                        let virtual_offset = scroll.virtual_offset_from_visual(
                            visual,
                            g.max_visual_range,
                        );
                        if virtual_offset != scroll.offset {
                            raw = ScrollResult::ThumbDragged(virtual_offset);
                        }
                    }
                },
                Region::TrackBeforeThumb(_) => {
                    if matches!(g.region, Region::TrackBeforeThumb(_)) {
                        raw = ScrollResult::TrackHeld(
                            held_click_kind(state),
                            TrackSide::Before,
                            scroll.virtual_offset_from_visual(
                                track_click_offset(g.cursor_track_dx, g.track_length),
                                g.max_visual_range,
                            ),
                        );
                    }
                },
                Region::TrackAfterThumb(_) => {
                    if matches!(g.region, Region::TrackAfterThumb(_)) {
                        raw = ScrollResult::TrackHeld(
                            held_click_kind(state),
                            TrackSide::After,
                            scroll.virtual_offset_from_visual(
                                track_click_offset(g.cursor_track_dx, g.track_length),
                                g.max_visual_range,
                            ),
                        );
                    }
                },
            }
        }
    }

    let new_status = if matches!(*status, Status::Enabled(_)) {
        if state.last_region.is_some() {
            Status::Enabled(BarStatus::Dragged)
        } else if hovered {
            Status::Enabled(BarStatus::Hovered)
        } else {
            Status::Enabled(BarStatus::Active)
        }
    } else {
        Status::Disabled
    };

    let result = if new_status != *status && matches!(raw, ScrollResult::Unhandled) {
        ScrollResult::AppearanceChanged
    } else {
        raw
    };
    *status = new_status;
    result
}

/// The kind of the last recorded click, or a single click when none is
/// recorded.
fn held_click_kind(state: &State) -> (r: ClickKind)
    ensures
        r == spec_kind_or_single(state.last_click_kind),
{
    match state.last_click_kind {
        Some(kind) => kind,
        None => ClickKind::Single,
    }
}

/// The pixel offset a track click scrolls to, kept inside the track.
fn track_click_offset(cursor_track_dx: i64, track_length: i64) -> (r: i64)
    requires
        -PIXEL_RANGE_LIMIT <= cursor_track_dx <= PIXEL_RANGE_LIMIT,
        0 <= track_length <= PIXEL_RANGE_LIMIT,
    ensures
        r == spec_track_click_offset(cursor_track_dx as int, track_length as int),
        0 <= r,
{
    let capped = if cursor_track_dx < track_length - 1 {
        cursor_track_dx
    } else {
        track_length - 1
    };
    if capped < 0 {
        0
    } else {
        capped
    }
}

/// The fitted scroll offset always lies in `[0, virtual_max_offset]`.
pub proof fn lemma_fitted_offset_in_range(v: Viewport)
    requires
        v.wf(),
    ensures
        0 <= v.spec_fitted_offset() <= v.spec_virtual_max_offset(),
{
}

/// The maximum scroll offset never decreases when the virtual size grows and
/// the step capacity of the viewport stays the same.
pub proof fn lemma_virtual_max_offset_monotonic(a: Viewport, b: Viewport)
    requires
        a.wf(),
        b.wf(),
        a.steps_floor == b.steps_floor,
        a.size <= b.size,
    ensures
        a.spec_virtual_max_offset() <= b.spec_virtual_max_offset(),
{
}

} // verus!
