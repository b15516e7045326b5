//! Selection boundaries over the byte-addressed space.
//!
//! An [`Index`] is an absolute byte offset together with the [`Side`] of the
//! cell that was interacted with; a [`Selection`] is a non-empty range of
//! bytes. The side-aware arithmetic in [`selection`] implements half-cell
//! click precision: clicking the right half of a cell excludes that cell from
//! a selection that extends to the left of it.

use vstd::prelude::*;

verus! {

/// The side of a cell that a pointer interaction refers to. Clicking the left
/// or the right half of a cell matters for where a selection starts and ends.
#[derive(Clone, Copy, Debug, Eq, PartialEq, Structural)]
pub enum Side {
    /// The left half of the cell.
    Left,
    /// No side was chosen, or the side is irrelevant.
    Neither,
    /// The right half of the cell.
    Right,
}

/// Rank of a side in the order `Left < Neither < Right`.
pub open spec fn side_rank(s: Side) -> int {
    match s {
        Side::Left => 0,
        Side::Neither => 1,
        Side::Right => 2,
    }
}

/// An absolute offset into the source, together with the side of the cell
/// that was interacted with. Ordered first by offset, then by side.
#[derive(Clone, Copy, Debug, Eq, PartialEq, Structural)]
pub struct Index {
    /// Absolute byte offset into the source.
    pub offset: i64,
    /// Side of the cell at `offset` that was interacted with.
    pub side: Side,
}

/// Strict order on [`Index`]: by offset, then by side (`Left < Neither < Right`).
pub open spec fn index_lt(a: Index, b: Index) -> bool {
    a.offset < b.offset || (a.offset == b.offset && side_rank(a.side) < side_rank(b.side))
}

impl Index {
    /// Creates a new `Index`.
    pub fn new(offset: i64, side: Side) -> (r: Index)
        ensures
            r == (Index { offset, side }),
    {
        Index { offset, side }
    }

    /// Whether `self` comes strictly before `other` in the order by offset,
    /// then by side.
    pub fn lt(&self, other: &Index) -> (r: bool)
        ensures
            r == index_lt(*self, *other),
    {
        if self.offset < other.offset {
            true
        } else if self.offset > other.offset {
            false
        } else {
            match (self.side, other.side) {
                (Side::Left, Side::Neither) => true,
                (Side::Left, Side::Right) => true,
                (Side::Neither, Side::Right) => true,
                _ => false,
            }
        }
    }
}

/// A non-empty range of selected bytes.
///
/// The byte and char cells each have a left side and a right side, which play
/// a role in selections. When a selection is started by clicking the left side
/// of the cell at some offset and the pointer moves to the right side of the
/// same cell, that one byte is selected. Moving on to the left side of the
/// next cell does not change the selection; only reaching that cell's right
/// side selects it too.
#[derive(Clone, Copy, Debug, Eq, PartialEq, Structural)]
pub struct Selection {
    /// The leftmost byte in the selection.
    pub offset: u64,
    /// The number of bytes that are selected. Always at least one: a
    /// zero-length selection does not exist, it degenerates to "no selection".
    pub length: u64,
    /// The last byte that was interacted with to create the selection. It is
    /// not necessarily contained in the selection; see
    /// [`Selection::last_contained`].
    pub last: u64,
}

impl Selection {
    /// Creates a new selection. A selection always has at least one byte.
    pub fn new(offset: u64, length: u64, last: u64) -> (r: Selection)
        requires
            length >= 1,
        ensures
            r == (Selection { offset, length, last }),
    {
        Selection { offset, length, last }
    }

    /// The last byte that was interacted with to create the selection,
    /// clamped into the selected range `[offset, offset + length)`.
    pub fn last_contained(&self) -> (r: u64)
        requires
            self.length >= 1,
            self.offset + self.length <= u64::MAX,
        ensures
            r == if self.last < self.offset {
                self.offset as int
            } else if self.last >= self.offset + self.length {
                self.offset + self.length - 1
            } else {
                self.last as int
            },
            self.offset <= r < self.offset + self.length,
    {
        if self.last < self.offset {
            self.offset
        } else if self.last >= self.offset + self.length {
            self.offset + self.length - 1
        } else {
            self.last
        }
    }
}

/// The selection that interacting with the two boundaries `a` and `b` makes,
/// if any. The order of the two boundaries does not matter.
///
/// With `(left, right)` the two boundaries in ascending order, the selection
/// starts at `left.offset`, excluding that byte when only its right half was
/// interacted with, and ends at `right.offset`, including that byte unless
/// only its left half was interacted with. If that range is empty there is no
/// selection.
pub open spec fn spec_selection(a: Index, b: Index, current: int) -> Option<Selection> {
    let left = if index_lt(b, a) { b } else { a };
    let right = if index_lt(b, a) { a } else { b };
    let start = left.offset + (if left.side is Right { 1int } else { 0int });
    let length = right.offset - left.offset - 1
        + (if left.side is Left || left.side is Neither { 1int } else { 0int })
        + (if right.side is Right || right.side is Neither { 1int } else { 0int });
    if length > 0 {
        Some(Selection { offset: start as u64, length: length as u64, last: current as u64 })
    } else {
        Option::<Selection>::None
    }
}

/// Determines what selection can be made between the two indices, if any. The
/// order in which the indices are supplied does not matter. `current` is the
/// absolute offset that was last interacted with.
pub fn selection(a: Index, b: Index, current: i64) -> (r: Option<Selection>)
    requires
        0 <= a.offset < i64::MAX,
        0 <= b.offset < i64::MAX,
        0 <= current,
    ensures
        r == spec_selection(a, b, current as int),
        r is Some ==> r->0.length >= 1,
{
    let (left, right) = if a.lt(&b) { (a, b) } else { (b, a) };

    let start = left.offset + if matches!(left.side, Side::Right) { 1 } else { 0 };
    let length = right.offset - left.offset - 1
        + if matches!(left.side, Side::Left | Side::Neither) { 1 } else { 0 }
        + if matches!(right.side, Side::Right | Side::Neither) { 1 } else { 0 };

    if length > 0 {
        proof {
            if index_lt(b, a) {
                assert(left == b && right == a);
            } else {
                assert(left == a && right == b);
            }
        }
        Some(Selection::new(start as u64, length as u64, current as u64))
    } else {
        None
    }
}

/// The selection made from two boundaries does not depend on the order in
/// which they are given: `selection(a, b, x)` equals `selection(b, a, x)` for
/// all boundary pairs and interaction offsets.
pub proof fn lemma_selection_symmetric(a: Index, b: Index, current: int)
    ensures
        spec_selection(a, b, current) == spec_selection(b, a, current),
{
    if !index_lt(a, b) && !index_lt(b, a) {
        assert(a.offset == b.offset);
        assert(side_rank(a.side) == side_rank(b.side));
        assert(a.side == b.side);
    }
}

} // verus!
