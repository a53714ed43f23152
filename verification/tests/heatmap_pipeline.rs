use maxtouch::heatmap::{pixel_color, transform_point, HeatmapSweep};

/// A full diagnostic page: the echoed object id, the page index, then the
/// given samples little-endian, zero-filled to the full read length.
fn page(page_index: u8, samples: &[i16]) -> Vec<u8> {
    let mut data = vec![0u8; 130];
    data[0] = 37;
    data[1] = page_index;
    for (k, s) in samples.iter().enumerate() {
        let b = s.to_le_bytes();
        data[2 + 2 * k] = b[0];
        data[2 + 2 * k + 1] = b[1];
    }
    data
}

#[test]
fn normalization_midpoint_is_mid_gradient() {
    // low = 0, high = 100, sample = 50: normalized one half, mid of the
    // white-to-blue gradient.
    assert_eq!(pixel_color(50, 0, 100), (128, 128, 255));
}

#[test]
fn normalization_symmetric_low_saturates_red() {
    // low = -50, high = 50, sample = -50: normalized -1, fully red.
    assert_eq!(pixel_color(-50, -50, 50), (255, 0, 0));
}

#[test]
fn normalization_clamps_above_high() {
    // sample = 200 with high = 100 clamps to 1, fully blue, no overflow.
    assert_eq!(pixel_color(200, 0, 100), (0, 0, 255));
}

#[test]
fn normalization_endpoints() {
    assert_eq!(pixel_color(0, 0, 100), (255, 255, 255));
    assert_eq!(pixel_color(100, 0, 100), (0, 0, 255));
    assert_eq!(pixel_color(50, -50, 50), (0, 0, 255));
    assert_eq!(pixel_color(0, -50, 50), (255, 255, 255));
    assert_eq!(pixel_color(-25, -50, 50), (255, 128, 128));
}

#[test]
fn normalization_survives_extreme_samples() {
    // The most negative sample saturates red without overflowing.
    assert_eq!(pixel_color(i16::MIN, -1, 1), (255, 0, 0));
    assert_eq!(pixel_color(i16::MAX, 0, 1), (0, 0, 255));
    assert_eq!(pixel_color(i16::MIN, 0, 100), (255, 255, 255));
}

#[test]
fn transform_invert_x_maps_origin_to_far_column() {
    // A 2 x 3 matrix with invert-x only: linear index 0 (row 0, column 0)
    // lands on pixel (width - 1, 0) = (1, 0).
    assert_eq!(transform_point(0, 2, 3, true, false, false), (1, 0));
}

#[test]
fn transform_plain_row_major() {
    // Without flags, index i maps to (i / sy, i % sy).
    assert_eq!(transform_point(0, 2, 3, false, false, false), (0, 0));
    assert_eq!(transform_point(1, 2, 3, false, false, false), (0, 1));
    assert_eq!(transform_point(3, 2, 3, false, false, false), (1, 0));
    assert_eq!(transform_point(5, 2, 3, false, false, false), (1, 2));
}

#[test]
fn transform_swap_exchanges_axes() {
    // Swap only: (x, y) becomes (y, x).
    assert_eq!(transform_point(5, 2, 3, false, false, true), (2, 1));
}

#[test]
fn single_page_sweep_for_48_nodes() {
    // 48 nodes need ceil(96 / 128) = 1 page: one read, no page advance.
    let mut sweep = HeatmapSweep::new(6, 8, false, false, false, 0, 100);
    assert_eq!(sweep.page_count(), 1);
    assert!(!sweep.is_done());
    sweep.accept_page(&page(0, &[0i16; 48]));
    assert!(sweep.is_done());
}

#[test]
fn page_count_rounds_up() {
    let sweep = HeatmapSweep::new(16, 16, false, false, false, 0, 100);
    // 256 nodes, 512 bytes: exactly 4 pages.
    assert_eq!(sweep.page_count(), 4);
    let sweep2 = HeatmapSweep::new(10, 13, false, false, false, 0, 100);
    // 130 nodes, 260 bytes: ceil(260 / 128) = 3 pages.
    assert_eq!(sweep2.page_count(), 3);
}

#[test]
fn sweep_writes_normalized_pixels_at_transformed_coordinates() {
    let mut sweep = HeatmapSweep::new(2, 2, false, false, false, 0, 100);
    sweep.accept_page(&page(0, &[0, 50, 100, 200]));
    let grid = sweep.finish();
    assert_eq!(grid.width(), 2);
    assert_eq!(grid.height(), 2);
    // Node i lands on (i / 2, i % 2).
    assert_eq!(grid.get(0, 0), (255, 255, 255));
    assert_eq!(grid.get(0, 1), (128, 128, 255));
    assert_eq!(grid.get(1, 0), (0, 0, 255));
    assert_eq!(grid.get(1, 1), (0, 0, 255));
}

#[test]
fn sweep_discards_nodes_past_the_count() {
    // A 1 x 3 matrix uses only the first three slots of its single page;
    // the rest of the page must not land anywhere.
    let mut sweep = HeatmapSweep::new(1, 3, false, false, false, 0, 100);
    let mut data = page(0, &[100, 100, 100]);
    // Fill the remaining slots with a sample that would be visible.
    for k in 3..64 {
        data[2 + 2 * k] = 100;
    }
    sweep.accept_page(&data);
    let grid = sweep.finish();
    assert_eq!((grid.width(), grid.height()), (1, 3));
    for y in 0..3 {
        assert_eq!(grid.get(0, y), (0, 0, 255));
    }
}

#[test]
fn sweep_tracks_sample_range() {
    let mut sweep = HeatmapSweep::new(2, 2, false, false, false, 0, 100);
    sweep.accept_page(&page(0, &[-7, 50, 100, 3]));
    assert_eq!(sweep.sample_range(), (-7, 100));
}

#[test]
fn multi_page_sweep_fills_whole_grid() {
    // 16 x 8 = 128 nodes over two pages, symmetric normalization.
    let mut sweep = HeatmapSweep::new(16, 8, false, false, false, -100, 100);
    assert_eq!(sweep.page_count(), 2);
    sweep.accept_page(&page(0, &[-100i16; 64]));
    assert!(!sweep.is_done());
    sweep.accept_page(&page(1, &[100i16; 64]));
    assert!(sweep.is_done());
    let grid = sweep.finish();
    // First page covered rows 0..8 of x (nodes 0..64): fully red.
    assert_eq!(grid.get(0, 0), (255, 0, 0));
    assert_eq!(grid.get(7, 7), (255, 0, 0));
    // Second page covered the rest: fully blue.
    assert_eq!(grid.get(8, 0), (0, 0, 255));
    assert_eq!(grid.get(15, 7), (0, 0, 255));
}

#[test]
fn stale_page_needs_both_header_bytes_wrong() {
    let sweep = HeatmapSweep::new(2, 2, false, false, false, 0, 100);
    // Expected page index is 0. Stale only when the id is not the
    // diagnostic object and the page index does not match.
    let mut data = page(0, &[]);
    data[0] = 0;
    data[1] = 9;
    assert!(sweep.page_stale(&data));
    // Correct object id alone is enough to accept.
    let mut data2 = page(9, &[]);
    data2[0] = 37;
    assert!(!sweep.page_stale(&data2));
    // Correct page index alone is enough to accept.
    let mut data3 = page(0, &[]);
    data3[0] = 0;
    assert!(!sweep.page_stale(&data3));
}

#[test]
fn swapped_sweep_uses_swapped_extents() {
    let mut sweep = HeatmapSweep::new(2, 3, false, false, true, 0, 100);
    sweep.accept_page(&page(0, &[100, 0, 0, 0, 0, 0]));
    let grid = sweep.finish();
    assert_eq!((grid.width(), grid.height()), (3, 2));
    // Node 0 sits at (0, 0) before the swap and stays there after it.
    assert_eq!(grid.get(0, 0), (0, 0, 255));
}
