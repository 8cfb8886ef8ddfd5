use pathtracer::schedule::{partition_rows, pixel_location, RowChunk};

fn bounds(chunks: &[RowChunk]) -> Vec<(usize, usize)> {
    chunks.iter().map(|c| (c.first_row, c.end_row)).collect()
}

#[test]
fn partition_into_bands_with_short_last_band() {
    let chunks = partition_rows(10, 3);
    assert_eq!(bounds(&chunks), vec![(0, 3), (3, 6), (6, 9), (9, 10)]);
}

#[test]
fn partition_one_row_per_chunk() {
    let chunks = partition_rows(4, 1);
    assert_eq!(bounds(&chunks), vec![(0, 1), (1, 2), (2, 3), (3, 4)]);
}

#[test]
fn partition_of_no_rows_is_empty() {
    assert!(partition_rows(0, 4).is_empty());
}

#[test]
fn partition_with_band_taller_than_image() {
    assert_eq!(bounds(&partition_rows(5, 8)), vec![(0, 5)]);
}

#[test]
fn partition_with_exact_bands() {
    assert_eq!(bounds(&partition_rows(6, 2)), vec![(0, 2), (2, 4), (4, 6)]);
}

#[test]
fn every_row_lies_in_exactly_one_chunk() {
    let chunks = partition_rows(23, 4);
    for row in 0..23 {
        let holders = chunks.iter().filter(|c| c.first_row <= row && row < c.end_row).count();
        assert_eq!(holders, 1);
        assert!(chunks[row / 4].first_row <= row && row < chunks[row / 4].end_row);
    }
}

#[test]
fn pixel_span_of_a_chunk() {
    let chunk = RowChunk { first_row: 2, end_row: 5 };
    assert_eq!(chunk.pixel_span(4), (8, 20));
}

#[test]
fn pixel_location_is_column_then_row() {
    assert_eq!(pixel_location(4, 9), (1, 2));
    assert_eq!(pixel_location(4, 0), (0, 0));
    assert_eq!(pixel_location(1, 7), (0, 7));
    assert_eq!(pixel_location(400, 399), (399, 0));
}

#[test]
fn every_pixel_lies_in_exactly_one_chunk_span() {
    let (width, height) = (3usize, 11usize);
    let chunks = partition_rows(height, 4);
    for p in 0..width * height {
        let holders: Vec<usize> = (0..chunks.len())
            .filter(|&i| {
                let (lo, hi) = chunks[i].pixel_span(width);
                lo <= p && p < hi
            })
            .collect();
        assert_eq!(holders, vec![(p / width) / 4]);
    }
}
