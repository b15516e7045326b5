//! The content window: owns the byte source and the window of bytes that is
//! materialized for the current viewport, and re-fetches exactly the bytes
//! the viewport needs, one ranged read per visible row.

use vstd::prelude::*;

use crate::viewport::Viewport;

verus! {

/// A source of bytes for [`Content`], such as a file. It must not shrink
/// while in use; growing is tolerated, since the size is re-queried on every
/// update. `Content`'s read pattern is one read per visible row, so one
/// update can issue many small reads; a slow source should cache internally.
pub trait Source {
    /// The bytes the source holds.
    spec fn view(&self) -> Seq<u8>;

    /// Reads `len` bytes starting at `offset`, or as many as the source
    /// still holds past `offset` when fewer than `len` remain.
    fn read(&mut self, offset: u64, len: usize) -> (r: Vec<u8>)
        ensures
            final(self).view() == old(self).view(),
            r@.len() == spec_read_len(old(self).view().len() as int, offset as int, len as int),
            forall|i: int| 0 <= i < r@.len() ==> r@[i] == old(self).view()[offset + i],
    ;

    /// The size of the source in bytes. Takes `self` mutably so that the
    /// size can be loaded lazily and cached.
    fn size(&mut self) -> (r: u64)
        ensures
            final(self).view() == old(self).view(),
            r == old(self).view().len(),
            r <= 0x7fff_ffff_ffff_ffff,
    ;
}

/// The number of bytes a read of `len` bytes at `offset` from a source of
/// `view_len` bytes returns: `len`, clipped to what lies past `offset`.
pub open spec fn spec_read_len(view_len: int, offset: int, len: int) -> int {
    let available = if view_len - offset > 0 { view_len - offset } else { 0int };
    if len < available { len } else { available }
}

/// A source with no bytes at all.
#[derive(Clone, Copy, Debug, Eq, PartialEq, Structural)]
pub struct Empty {}

impl Source for Empty {
    open spec fn view(&self) -> Seq<u8> {
        Seq::empty()
    }

    fn read(&mut self, offset: u64, len: usize) -> (r: Vec<u8>) {
        Vec::new()
    }

    fn size(&mut self) -> (r: u64) {
        0
    }
}

/// A source backed by a byte vector held in memory.
#[derive(Debug)]
pub struct VecSource {
    data: Vec<u8>,
}

impl VecSource {
    /// The whole vector stays addressable with 63-bit offsets.
    #[verifier::type_invariant]
    pub closed spec fn inv(&self) -> bool {
        self.data@.len() <= 0x7fff_ffff_ffff_ffff
    }

    /// Creates a source over the given bytes.
    pub fn new(data: Vec<u8>) -> (r: VecSource)
        requires
            data@.len() <= 0x7fff_ffff_ffff_ffff,
        ensures
            r.view() == data@,
    {
        VecSource { data }
    }
}

impl Source for VecSource {
    closed spec fn view(&self) -> Seq<u8> {
        self.data@
    }

    fn read(&mut self, offset: u64, len: usize) -> (r: Vec<u8>) {
        proof {
            use_type_invariant(&*self);
        }
        let size = self.data.len();
        if offset >= size as u64 {
            return Vec::new();
        }
        let start = offset as usize;
        let available = size - start;
        let n = if len < available {
            len
        } else {
            available
        };
        let mut out: Vec<u8> = Vec::new();
        let mut j: usize = 0;
        while j < n
            invariant
                size == self.data@.len(),
                start + n <= size,
                out@.len() == j,
                j <= n,
                forall|i: int| 0 <= i < j ==> out@[i] == self.data@[start + i],
            decreases n - j,
        {
            out.push(self.data[start + j]);
            j = j + 1;
        }
        out
    }

    fn size(&mut self) -> (r: u64) {
        proof {
            use_type_invariant(&*self);
        }
        self.data.len() as u64
    }
}

/// One materialized cell, as produced by [`Content::items`].
#[derive(Clone, Copy, Debug, Eq, PartialEq, Structural)]
pub struct ContentItem {
    /// The absolute offset of the byte in the source.
    pub offset: i64,
    /// The linear index of the cell within the viewport, row-major.
    pub viewport_offset: i64,
    /// The column of the cell within the viewport.
    pub column: i64,
    /// The row of the cell within the viewport.
    pub row: i64,
    /// The byte value.
    pub value: u8,
}

impl ContentItem {
    /// Creates a new `ContentItem`.
    pub fn new(offset: i64, viewport_offset: i64, column: i64, row: i64, byte: u8) -> (r:
        ContentItem)
        ensures
            r == (ContentItem { offset, viewport_offset, column, row, value: byte }),
    {
        ContentItem { offset, viewport_offset, column, row, value: byte }
    }
}

/// `prev` resized to `n` bytes: kept where it reaches, zero-filled beyond.
pub open spec fn spec_resized(prev: Seq<u8>, n: nat) -> Seq<u8> {
    Seq::new(
        n,
        |i: int|
            if i < prev.len() {
                prev[i]
            } else {
                0u8
            },
    )
}

/// The absolute source offset of the viewport cell with row-major linear
/// index `i`.
pub open spec fn spec_cell_offset(vp: Viewport, i: int) -> int {
    if vp.columns <= 0 {
        0
    } else {
        (vp.y + i / (vp.columns as int)) * vp.virtual_columns + vp.x + i % (vp.columns as int)
    }
}

/// The buffer an update of the content window materializes: one byte per
/// viewport cell, row-major. A cell whose absolute offset lies inside the
/// source shows the source byte at that offset; any other cell keeps what
/// the (resized) buffer held there before.
pub open spec fn spec_materialized(view: Seq<u8>, vp: Viewport, prev: Seq<u8>) -> Seq<u8> {
    Seq::new(
        (vp.columns * vp.rows) as nat,
        |i: int|
            {
                let off = spec_cell_offset(vp, i);
                if 0 <= off < view.len() {
                    view[off]
                } else {
                    spec_resized(prev, (vp.columns * vp.rows) as nat)[i]
                }
            },
    )
}

/// The cell item at row-major linear index `i`, for a viewport with at
/// least one column.
pub open spec fn spec_item(data: Seq<u8>, vp: Viewport, i: int) -> ContentItem {
    ContentItem {
        offset: spec_cell_offset(vp, i) as i64,
        viewport_offset: i as i64,
        column: (i % (vp.columns as int)) as i64,
        row: (i / (vp.columns as int)) as i64,
        value: data[i],
    }
}

/// The items a row-major walk over the materialized buffer yields from
/// index `i` on: one item per cell, stopping at the end of the buffer or at
/// the first cell whose absolute offset lies at or past the end of the
/// source.
pub open spec fn spec_items_from(data: Seq<u8>, vp: Viewport, source_size: int, i: int) -> Seq<
    ContentItem,
>
    decreases data.len() - i,
{
    if i < 0 || i >= data.len() {
        Seq::empty()
    } else if spec_cell_offset(vp, i) >= source_size {
        Seq::empty()
    } else {
        seq![spec_item(data, vp, i)] + spec_items_from(data, vp, source_size, i + 1)
    }
}

/// The content displayed and interacted with by the hex viewer.
///
/// It owns the byte source and keeps a materialized window of the bytes the
/// current viewport shows. Two reported intents give the embedding
/// application reason to call [`Content::update`]: a scroll request moves
/// the viewport, and a logical viewport resize changes how many columns and
/// rows fit.
#[derive(Debug)]
pub struct Content<S: Source> {
    /// The source of the bytes.
    pub source: S,
    /// The size of the source in bytes, cached; refreshed by every update.
    pub source_size: i64,
    /// The materialized window of bytes, one per viewport cell, row-major.
    pub data: Vec<u8>,
    /// The viewport the window was last updated for.
    pub viewport: Viewport,
    /// An identity distinguishing content instances; the embedding shell
    /// uses it to deduplicate reported viewport states. Pass a fresh value
    /// from a process-wide counter.
    pub id: u64,
}

impl<S: Source> Content<S> {
    /// Well-formedness: the viewport is sane, the cached size is a valid
    /// 63-bit byte count, and (outside the degenerate zero-column state) the
    /// buffer has exactly one byte per viewport cell.
    pub open spec fn wf(&self) -> bool {
        &&& self.viewport.wf()
        &&& 0 <= self.source_size <= 0x7fff_ffff_ffff_ffff
        &&& self.viewport.virtual_columns != 0 ==> self.data@.len() == self.viewport.columns
            * self.viewport.rows
    }

    /// Creates a new `Content` over the given source. `id` must come from a
    /// process-wide monotonic counter so that every instance is
    /// distinguishable.
    pub fn new(source: S, id: u64) -> (r: Content<S>)
        ensures
            r.source.view() == source.view(),
            r.source_size == source.view().len(),
            r.data@.len() == 0,
            r.viewport == (Viewport {
                x: 0,
                y: 0,
                columns: 0,
                rows: 0,
                shift_x: 0,
                virtual_columns: 0,
            }),
            r.id == id,
            r.wf(),
    {
        let mut source = source;
        let source_size = source.size() as i64;

        Content {
            source,
            source_size,
            data: Vec::new(),
            viewport: Viewport::default(),
            id,
        }
    }

    /// Updates the materialized window for the given viewport.
    ///
    /// The viewport is stored; with a zero-column virtual grid nothing else
    /// happens (the degenerate empty state). Otherwise the source size is
    /// re-read, the buffer is resized to one byte per viewport cell, and one
    /// ranged read per visible row fills every cell whose absolute offset
    /// lies inside the source; all other cells keep what the resized buffer
    /// held there before. Rows that lie entirely past the end of the source
    /// are skipped.
    pub fn update(&mut self, viewport: Viewport)
        requires
            old(self).wf(),
            viewport.wf(),
        ensures
            final(self).wf(),
            final(self).viewport == viewport,
            final(self).id == old(self).id,
            final(self).source.view() == old(self).source.view(),
            viewport.virtual_columns == 0 ==> final(self).source == old(self).source
                && final(self).source_size == old(self).source_size
                && final(self).data == old(self).data,
            viewport.virtual_columns != 0 ==> {
                &&& final(self).source_size == old(self).source.view().len()
                &&& final(self).data@ == spec_materialized(
                    old(self).source.view(),
                    viewport,
                    old(self).data@,
                )
            },
    {
        self.viewport = viewport;
        if viewport.virtual_columns == 0 {
            return ;
        }
        let ghost view = self.source.view();
        let ghost prev = self.data@;

        self.source_size = self.source.size() as i64;

        proof {
            assert(0 <= viewport.columns * viewport.rows <= 0x7fff_ffff) by (nonlinear_arith)
                requires
                    0 <= viewport.columns,
                    0 <= viewport.rows,
                    viewport.columns * viewport.rows <= 0x7fff_ffff,
            ;
        }
        let n: usize = (viewport.columns * viewport.rows) as usize;
        if self.data.len() != n {
            self.data.resize(n, 0);
        }
        let ghost base = spec_resized(prev, n as nat);
        proof {
            assert(self.data@ =~= base);
        }

        let ghost target = spec_materialized(view, viewport, prev);

        let mut r: i64 = 0;
        while r < viewport.rows
            invariant
                viewport.wf(),
                viewport.virtual_columns >= 1,
                0 <= r <= viewport.rows,
                n == viewport.columns * viewport.rows,
                self.viewport == viewport,
                self.id == old(self).id,
                view == old(self).source.view(),
                prev == old(self).data@,
                view.len() <= 0x7fff_ffff_ffff_ffff,
                self.source.view() == view,
                self.source_size == view.len(),
                self.data@.len() == n,
                target == spec_materialized(view, viewport, prev),
                base == spec_resized(prev, n as nat),
                target.len() == n,
                forall|i: int|
                    0 <= i < r * viewport.columns && i < n ==> self.data@[i] == target[i],
                forall|i: int| r * viewport.columns <= i < n ==> self.data@[i] == base[i],
            decreases viewport.rows - r,
        {
            proof {
                assert(0 <= (viewport.y + r) * viewport.virtual_columns <= (0x400_0000_0000
                    + 0x10_0000) * 0x10_0000) by (nonlinear_arith)
                    requires
                        0 <= viewport.y + r <= 0x400_0000_0000 + 0x10_0000,
                        0 <= viewport.virtual_columns <= 0x10_0000,
                ;
                assert(0 <= r * viewport.columns && (r + 1) * viewport.columns <= n
                    && r * viewport.columns + viewport.columns == (r + 1) * viewport.columns)
                    by (nonlinear_arith)
                    requires
                        0 <= r < viewport.rows,
                        0 <= viewport.columns,
                        n == viewport.columns * viewport.rows,
                ;
            }
            let source_offset = (viewport.y + r) * viewport.virtual_columns + viewport.x;

            let dst_offset = r * viewport.columns;
            let available = self.source_size - source_offset;
            let clipped = if viewport.columns < available {
                viewport.columns
            } else {
                available
            };
            let dst_size: i64 = if clipped > 0 {
                clipped
            } else {
                0
            };

            if dst_size == 0 {
                proof {
                    lemma_rows_past_end(view, viewport, prev, r as int, n as nat);
                    assert forall|i: int| 0 <= i < n implies self.data@[i] == target[i] by {
                        if i >= r * viewport.columns {
                            assert(target[i] == base[i]);
                        }
                    }
                    assert(self.data@ =~= target);
                }
                return ;
            }

            let chunk = self.source.read(source_offset as u64, dst_size as usize);
            assert(chunk@.len() == dst_size);

            let mut j: usize = 0;
            while j < chunk.len()
                invariant
                    viewport.wf(),
                    viewport.virtual_columns >= 1,
                    0 <= r < viewport.rows,
                    n == viewport.columns * viewport.rows,
                    self.viewport == viewport,
                    self.id == old(self).id,
                    view == old(self).source.view(),
                    prev == old(self).data@,
                    view.len() <= 0x7fff_ffff_ffff_ffff,
                    self.source.view() == view,
                    self.source_size == view.len(),
                    self.data@.len() == n,
                    target == spec_materialized(view, viewport, prev),
                    base == spec_resized(prev, n as nat),
                    target.len() == n,
                    j <= chunk@.len(),
                    dst_offset == r * viewport.columns,
                    source_offset == (viewport.y + r) * viewport.virtual_columns + viewport.x,
                    chunk@.len() == dst_size,
                    0 < dst_size <= viewport.columns,
                    dst_size <= view.len() - source_offset,
                    dst_offset + viewport.columns <= n,
                    forall|i: int| 0 <= i < chunk@.len() ==> chunk@[i] == view[source_offset + i],
                    forall|i: int|
                        0 <= i < dst_offset + j && i < n ==> self.data@[i] == target[i],
                    forall|i: int| dst_offset + j <= i < n ==> self.data@[i] == base[i],
                decreases chunk@.len() - j,
            {
                self.data[dst_offset as usize + j] = chunk[j];
                proof {
                    let i = dst_offset + j;
                    lemma_cell_offset_in_row(viewport, r as int, j as int);
                    assert(spec_cell_offset(viewport, i) == source_offset + j);
                    assert(self.data@[i] == target[i]);
                }
                j = j + 1;
            }

            proof {
                assert forall|i: int|
                    0 <= i < (r + 1) * viewport.columns && i < n implies self.data@[i]
                    == target[i] by {
                    if i >= dst_offset + dst_size {
                        let c = i - dst_offset;
                        lemma_cell_offset_in_row(viewport, r as int, c);
                        assert(spec_cell_offset(viewport, i) == source_offset + c);
                        assert(spec_cell_offset(viewport, i) >= view.len());
                    }
                }
            }
            r = r + 1;
        }
        proof {
            assert forall|i: int| 0 <= i < n implies self.data@[i] == target[i] by {
                assert(viewport.rows * viewport.columns == n) by (nonlinear_arith)
                    requires
                        n == viewport.columns * viewport.rows,
                ;
            }
            assert(self.data@ =~= target);
        }
    }

    /// The materialized cells whose absolute offset lies inside the source,
    /// in row-major order. The walk stops at the first cell at or past the
    /// end of the source; with a zero-column virtual grid there is nothing
    /// to yield.
    pub fn items(&self) -> (r: Vec<ContentItem>)
        requires
            self.wf(),
        ensures
            self.viewport.virtual_columns == 0 ==> r@.len() == 0,
            self.viewport.virtual_columns != 0 ==> r@ == spec_items_from(
                self.data@,
                self.viewport,
                self.source_size as int,
                0,
            ),
    {
        let mut out: Vec<ContentItem> = Vec::new();
        if self.viewport.virtual_columns == 0 {
            return out;
        }
        let vp = self.viewport;
        let ghost size = self.source_size as int;

        let mut i: usize = 0;
        while i < self.data.len()
            invariant
                self.wf(),
                vp == self.viewport,
                vp.virtual_columns >= 1,
                size == self.source_size as int,
                i <= self.data@.len(),
                self.data@.len() == vp.columns * vp.rows,
                spec_items_from(self.data@, vp, size, 0) == out@ + spec_items_from(
                    self.data@,
                    vp,
                    size,
                    i as int,
                ),
                out@.len() == i,
            decreases self.data@.len() - i,
        {
            proof {
                assert(vp.columns >= 1 && (i as int) / (vp.columns as int) < vp.rows && 0 <= (
                i as int) % (vp.columns as int) < vp.columns && 0 <= (i as int) / (
                vp.columns as int)) by (nonlinear_arith)
                    requires
                        0 <= i as int,
                        (i as int) < vp.columns * vp.rows,
                        0 <= vp.columns,
                        0 <= vp.rows,
                ;
            }
            let row = i as i64 / vp.columns;
            let col = i as i64 % vp.columns;
            proof {
                assert(0 <= (vp.y + row) * vp.virtual_columns <= (0x400_0000_0000 + 0x10_0000)
                    * 0x10_0000) by (nonlinear_arith)
                    requires
                        0 <= vp.y + row <= 0x400_0000_0000 + 0x10_0000,
                        0 <= vp.virtual_columns <= 0x10_0000,
                ;
            }
            let offset = (vp.y + row) * vp.virtual_columns + vp.x + col;
            assert(offset == spec_cell_offset(vp, i as int));

            if offset >= self.source_size {
                proof {
                    assert(spec_items_from(self.data@, vp, size, i as int) =~= Seq::empty());
                    assert(out@ + Seq::<ContentItem>::empty() =~= out@);
                }
                return out;
            }

            let ghost out_before = out@;
            out.push(ContentItem::new(offset, i as i64, col, row, self.data[i]));
            proof {
                let item = spec_item(self.data@, vp, i as int);
                assert(spec_items_from(self.data@, vp, size, i as int) =~= seq![item]
                    + spec_items_from(self.data@, vp, size, i as int + 1));
                assert(out@ =~= out_before + seq![item]);
                assert(spec_items_from(self.data@, vp, size, 0) =~= out@ + spec_items_from(
                    self.data@,
                    vp,
                    size,
                    i as int + 1,
                ));
            }
            i = i + 1;
        }
        proof {
            assert(spec_items_from(self.data@, vp, size, i as int) =~= Seq::empty());
            assert(out@ + Seq::<ContentItem>::empty() =~= out@);
        }
        out
    }
}

/// Within one fetched row, the absolute offset of cell `c` of row `r` is the
/// row's source offset plus `c`.
proof fn lemma_cell_offset_in_row(vp: Viewport, r: int, c: int)
    requires
        vp.columns >= 1,
        0 <= r,
        0 <= c < vp.columns,
    ensures
        spec_cell_offset(vp, r * vp.columns + c) == (vp.y + r) * vp.virtual_columns + vp.x + c,
{
    let i = r * vp.columns + c;
    assert(i / (vp.columns as int) == r && i % (vp.columns as int) == c) by (nonlinear_arith)
        requires
            i == r * vp.columns + c,
            0 <= c < vp.columns,
            0 <= r,
            vp.columns >= 1,
    ;
}

/// Once one row's source offset lies at or past the end of the source,
/// every remaining cell of the viewport keeps its previous byte.
proof fn lemma_rows_past_end(view: Seq<u8>, vp: Viewport, prev: Seq<u8>, r: int, n: nat)
    requires
        vp.wf(),
        vp.virtual_columns >= 1,
        0 <= r,
        n == vp.columns * vp.rows,
        (vp.y + r) * vp.virtual_columns + vp.x >= view.len() || vp.columns == 0,
    ensures
        forall|i: int|
            r * vp.columns <= i < n ==> spec_materialized(view, vp, prev)[i] == spec_resized(
                prev,
                n,
            )[i],
{
    assert forall|i: int|
        r * vp.columns <= i < n implies spec_materialized(view, vp, prev)[i] == spec_resized(
        prev,
        n,
    )[i] by {
        assert(vp.columns >= 1) by (nonlinear_arith)
            requires
                r * vp.columns <= i < n,
                n == vp.columns * vp.rows,
                0 <= vp.columns,
        ;
        let row = i / (vp.columns as int);
        let col = i % (vp.columns as int);
        assert(row >= r && 0 <= col < vp.columns && i < vp.columns * vp.rows) by (nonlinear_arith)
            requires
                vp.columns >= 1,
                r * vp.columns <= i < n,
                n == vp.columns * vp.rows,
                row == i / (vp.columns as int),
                col == i % (vp.columns as int),
                0 <= r,
        ;
        assert(spec_cell_offset(vp, i) == (vp.y + row) * vp.virtual_columns + vp.x + col);
        assert((vp.y + row) * vp.virtual_columns >= (vp.y + r) * vp.virtual_columns)
            by (nonlinear_arith)
            requires
                row >= r,
                vp.virtual_columns >= 1,
                vp.y >= 0,
        ;
        assert(spec_cell_offset(vp, i) >= view.len());
    }
}

/// Every cell that a walk over a freshly materialized buffer yields shows
/// exactly the source's byte at the cell's absolute offset, and that offset
/// lies inside the source: the viewer never shows a byte the source does
/// not hold at that address.
pub proof fn lemma_items_show_source_bytes(view: Seq<u8>, vp: Viewport, prev: Seq<u8>, i: int)
    requires
        vp.wf(),
        vp.virtual_columns >= 1,
    ensures
        ({
            let data = spec_materialized(view, vp, prev);
            let items = spec_items_from(data, vp, view.len() as int, i);
            forall|k: int|
                0 <= k < items.len() ==> {
                    &&& 0 <= (#[trigger] items[k]).offset < view.len()
                    &&& items[k].value == view[items[k].offset as int]
                }
        }),
    decreases spec_materialized(view, vp, prev).len() - i,
{
    let data = spec_materialized(view, vp, prev);
    let items = spec_items_from(data, vp, view.len() as int, i);
    if i < 0 || i >= data.len() {
    } else if spec_cell_offset(vp, i) >= view.len() {
    } else {
        assert(vp.columns >= 1) by (nonlinear_arith)
            requires
                0 <= i,
                (i as int) < vp.columns * vp.rows,
                0 <= vp.columns,
        ;
        let off = spec_cell_offset(vp, i);
        assert(0 <= off <= (0x400_0000_0000 + 0x10_0000) * 0x10_0000 + 0x10_0000 + 0x10_0000)
            by (nonlinear_arith)
            requires
                off == (vp.y + i / (vp.columns as int)) * vp.virtual_columns + vp.x + i % (
                vp.columns as int),
                0 <= i,
                1 <= vp.columns <= 0x10_0000,
                (i as int) < vp.columns * vp.rows,
                0 <= vp.rows <= 0x10_0000,
                0 <= vp.y <= 0x400_0000_0000,
                0 <= vp.x <= 0x10_0000,
                1 <= vp.virtual_columns <= 0x10_0000,
        ;
        let head = spec_item(data, vp, i);
        assert(head.offset == off && head.value == data[i]);
        assert(data[i] == view[off]);

        lemma_items_show_source_bytes(view, vp, prev, i + 1);
        let tail = spec_items_from(data, vp, view.len() as int, i + 1);
        assert(items == seq![head] + tail);
        assert forall|k: int| 0 <= k < items.len() implies {
            &&& 0 <= (#[trigger] items[k]).offset < view.len()
            &&& items[k].value == view[items[k].offset as int]
        } by {
            if k == 0 {
                assert(items[k] == head);
            } else {
                assert(items[k] == tail[k - 1]);
            }
        }
    }
}

/// Updating twice with the same viewport over the same source bytes leaves
/// the materialized buffer exactly as after the first update: the content
/// window update is idempotent for a stable source.
pub proof fn lemma_materialize_idempotent(view: Seq<u8>, vp: Viewport, prev: Seq<u8>)
    ensures
        spec_materialized(view, vp, spec_materialized(view, vp, prev)) == spec_materialized(
            view,
            vp,
            prev,
        ),
{
    let first = spec_materialized(view, vp, prev);
    let second = spec_materialized(view, vp, first);
    assert forall|i: int| 0 <= i < second.len() implies second[i] == first[i] by {
        let off = spec_cell_offset(vp, i);
        if !(0 <= off < view.len()) {
            assert(second[i] == spec_resized(first, first.len())[i]);
            assert(spec_resized(first, first.len())[i] == first[i]);
        }
    }
    assert(second =~= first);
}

} // verus!
