//! Tests of the logical viewport, the content window, the styler, and the
//! char-area text decoding.

use hex_viewer::content::{Content, ContentItem, Empty, Source, VecSource};
use hex_viewer::styler::ContentStyler;
use hex_viewer::text::byte_to_decoded_char;
use hex_viewer::viewport::Viewport;

fn grid(x: i64, y: i64, columns: i64, rows: i64, virtual_columns: i64) -> Viewport {
    Viewport { x, y, columns, rows, shift_x: 0, virtual_columns }
}

fn counting_source(len: u8) -> VecSource {
    let mut data = Vec::new();
    let mut value: u8 = 0;
    while (value as usize) < (len as usize) {
        data.push(value);
        value = value.wrapping_add(1);
    }
    VecSource::new(data)
}

#[test]
fn viewport_offset_and_size() {
    let viewport = grid(2, 1, 8, 4, 16);
    assert_eq!(viewport.offset(), 18);
    assert_eq!(viewport.size(), 32);
    assert_eq!(viewport.x(), 2);
    assert_eq!(viewport.y(), 1);
    assert_eq!(viewport.columns(), 8);
    assert_eq!(viewport.rows(), 4);
}

#[test]
fn iter_rows_yields_absolute_ranges() {
    let viewport = grid(2, 1, 8, 3, 16);
    let rows = viewport.iter_rows();
    assert_eq!(rows, vec![(18, 26), (34, 42), (50, 58)]);
}

#[test]
fn viewport_contains_maps_offsets_to_cells() {
    let viewport = grid(2, 1, 8, 4, 16);
    assert_eq!(viewport.contains(18), Some((0, 0)));
    assert_eq!(viewport.contains(41), Some((7, 1)));
    // Column 1 lies left of the viewport.
    assert_eq!(viewport.contains(17), None);
    // Row 0 lies above the viewport.
    assert_eq!(viewport.contains(2), None);
    // Row 5 lies below the viewport.
    assert_eq!(viewport.contains(82), None);
}

#[test]
fn update_materializes_the_visible_window() {
    let mut content = Content::new(counting_source(100), 7);
    content.update(grid(2, 1, 4, 2, 16));

    // Rows start at absolute offsets 18 and 34.
    assert_eq!(content.data, vec![18, 19, 20, 21, 34, 35, 36, 37]);
    assert_eq!(content.source_size, 100);
    assert_eq!(content.id, 7);
}

#[test]
fn update_with_zero_virtual_columns_is_a_no_op() {
    let mut content = Content::new(counting_source(100), 0);
    content.update(grid(0, 0, 4, 2, 0));
    assert_eq!(content.data.len(), 0);
    assert_eq!(content.items().len(), 0);
}

#[test]
fn update_skips_rows_past_the_end_of_the_source() {
    let mut content = Content::new(counting_source(20), 0);
    content.update(grid(0, 0, 16, 4, 16));

    assert_eq!(content.data.len(), 64);
    // The first 20 cells hold the source, the rest stayed zero.
    for i in 0..20 {
        assert_eq!(content.data[i], i as u8);
    }
    for i in 20..64 {
        assert_eq!(content.data[i], 0);
    }
}

#[test]
fn update_twice_with_the_same_viewport_is_idempotent() {
    let viewport = grid(1, 2, 5, 3, 16);

    let mut content = Content::new(counting_source(100), 0);
    content.update(viewport);
    let first = content.data.clone();

    content.update(viewport);
    assert_eq!(content.data, first);
}

#[test]
fn items_yield_the_visible_cells_row_major() {
    // Source size 100 with 16 virtual columns; the viewport shows 8 columns
    // and 4 rows from the origin.
    let mut content = Content::new(counting_source(100), 0);
    let viewport = grid(0, 0, 8, 4, 16);
    content.update(viewport);

    assert_eq!(viewport.offset(), 0);

    let items = content.items();
    assert_eq!(items.len(), 32);

    let mut expected: Vec<i64> = Vec::new();
    for row in [0i64, 16, 32, 48] {
        for col in 0..8i64 {
            expected.push(row + col);
        }
    }
    let offsets: Vec<i64> = items.iter().map(|item| item.offset).collect();
    assert_eq!(offsets, expected);

    for (i, item) in items.iter().enumerate() {
        assert!(item.offset < 100);
        assert_eq!(item.viewport_offset, i as i64);
        assert_eq!(item.column, (i % 8) as i64);
        assert_eq!(item.row, (i / 8) as i64);
        assert_eq!(item.value, item.offset as u8);
    }
}

#[test]
fn items_stop_at_the_end_of_the_source() {
    let mut content = Content::new(counting_source(20), 0);
    content.update(grid(0, 0, 16, 4, 16));

    let items = content.items();
    assert_eq!(items.len(), 20);
    assert_eq!(items.last().unwrap().offset, 19);
}

#[test]
fn empty_source_has_no_items() {
    let mut empty = Empty {};
    assert_eq!(empty.size(), 0);
    assert_eq!(empty.read(0, 16), Vec::new());

    let mut content = Content::new(Empty {}, 0);
    content.update(grid(0, 0, 8, 4, 16));
    assert_eq!(content.items().len(), 0);
}

#[test]
fn vec_source_reads_are_clipped_to_the_source() {
    let mut source = counting_source(10);
    assert_eq!(source.size(), 10);
    assert_eq!(source.read(4, 3), vec![4, 5, 6]);
    assert_eq!(source.read(8, 5), vec![8, 9]);
    assert_eq!(source.read(10, 5), Vec::new());
    assert_eq!(source.read(200, 5), Vec::new());
}

#[test]
fn content_item_new_keeps_its_fields() {
    let item = ContentItem::new(50, 2, 2, 0, 0xab);
    assert_eq!(item.offset, 50);
    assert_eq!(item.viewport_offset, 2);
    assert_eq!(item.column, 2);
    assert_eq!(item.row, 0);
    assert_eq!(item.value, 0xab);
}

#[test]
fn styler_tracks_sparse_overrides() {
    let mut styler: ContentStyler<u32> = ContentStyler::new(4);
    assert_eq!(styler.text_color(0), None);

    styler.set_text(1, 0xff0000);
    styler.set_background(2, 0x00ff00);
    // Out-of-range indexes are ignored.
    styler.set_text(9, 0x0000ff);

    assert_eq!(styler.text_color(1), Some(0xff0000));
    assert_eq!(styler.background_color(1), None);
    assert_eq!(styler.background_color(2), Some(0x00ff00));
    assert_eq!(styler.text_color(9), None);

    styler.clear(4);
    assert_eq!(styler.text_color(1), None);
    assert_eq!(styler.background_color(2), None);

    styler.clear(2);
    assert_eq!(styler.text_color(0), None);
    assert_eq!(styler.text_color(2), None);
}

#[test]
fn printable_bytes_decode_to_themselves() {
    assert_eq!(byte_to_decoded_char(b'A'), "A");
    assert_eq!(byte_to_decoded_char(b' '), " ");
    assert_eq!(byte_to_decoded_char(b'~'), "~");
}

#[test]
fn unprintable_bytes_decode_to_a_dot() {
    assert_eq!(byte_to_decoded_char(0x00), ".");
    assert_eq!(byte_to_decoded_char(0x1f), ".");
    assert_eq!(byte_to_decoded_char(0x80), ".");
    assert_eq!(byte_to_decoded_char(0xff), ".");
}
