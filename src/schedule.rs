//! Partition of an image into bands of whole rows, the unit of work that the
//! render scheduler hands to its workers.

use vstd::prelude::*;
use vstd::arithmetic::div_mod::{
    lemma_fundamental_div_mod, lemma_fundamental_div_mod_converse, lemma_mod_pos_bound,
};

verus! {

/// A contiguous band of scanlines: rows `first_row` up to, not including,
/// `end_row`.
#[derive(Clone, Copy, Debug, PartialEq, Eq, Structural)]
pub struct RowChunk {
    pub first_row: usize,
    pub end_row: usize,
}

/// How many chunks of `rows` rows (the last one possibly shorter) an image of
/// `height` rows has: `height / rows`, rounded up.
pub open spec fn chunk_count(height: int, rows: int) -> int {
    (height + rows - 1) / rows
}

/// The row after the last row of chunk `i`.
pub open spec fn chunk_end(i: int, rows: int, height: int) -> int {
    if (i + 1) * rows < height {
        (i + 1) * rows
    } else {
        height
    }
}

/// Whether chunk `i` of the partition of `height` rows into bands of `rows`
/// rows holds row `r`.
pub open spec fn chunk_holds(i: int, rows: int, height: int, r: int) -> bool {
    0 <= i < chunk_count(height, rows) && i * rows <= r < chunk_end(i, rows, height)
}

proof fn lemma_count_from_bounds(height: int, rows: int, n: int)
    requires
        rows > 0,
        n >= 0,
        height >= 0,
        n == 0 ==> height == 0,
        n > 0 ==> (n - 1) * rows < height,
        height <= n * rows,
    ensures
        chunk_count(height, rows) == n,
{
    let rem = height + rows - 1 - n * rows;
    assert(n * rows - rows == (n - 1) * rows) by (nonlinear_arith);
    lemma_fundamental_div_mod_converse(height + rows - 1, rows, n, rem);
}

/// Whether the pixel span of chunk `i`, in an image `width` pixels wide, holds
/// linear pixel index `p`.
pub open spec fn chunk_holds_pixel(i: int, rows: int, height: int, width: int, p: int) -> bool {
    0 <= i < chunk_count(height, rows) && i * rows * width <= p < chunk_end(i, rows, height) * width
}

impl RowChunk {
    /// The linear pixel indices of the chunk's rows in an image `width` pixels
    /// wide: from `first_row * width` up to, not including, `end_row * width`.
    pub fn pixel_span(&self, width: usize) -> (span: (usize, usize))
        requires
            self.first_row <= self.end_row,
            self.end_row * width <= usize::MAX,
        ensures
            span.0 == self.first_row * width,
            span.1 == self.end_row * width,
            span.0 <= span.1,
    {
        proof {
            assert(self.first_row * width <= self.end_row * width) by (nonlinear_arith)
                requires
                    self.first_row <= self.end_row,
            ;
        }
        (self.first_row * width, self.end_row * width)
    }
}

/// Splits `height` rows into consecutive chunks of `rows_per_chunk` rows each,
/// top to bottom; the last chunk takes what is left.
pub fn partition_rows(height: usize, rows_per_chunk: usize) -> (chunks: Vec<RowChunk>)
    requires
        rows_per_chunk > 0,
    ensures
        chunks.len() == chunk_count(height as int, rows_per_chunk as int),
        forall|i: int|
            0 <= i < chunks.len() ==> {
                &&& (#[trigger] chunks[i]).first_row == i * rows_per_chunk
                &&& chunks[i].end_row == chunk_end(i, rows_per_chunk as int, height as int)
            },
{
    let mut chunks: Vec<RowChunk> = Vec::new();
    let mut row: usize = 0;
    assert(0 * rows_per_chunk == 0);
    while row < height
        invariant
            rows_per_chunk > 0,
            row <= height,
            row < height ==> row == chunks.len() * rows_per_chunk,
            row == height ==> height <= chunks.len() * rows_per_chunk,
            chunks.len() == 0 ==> row == 0,
            chunks.len() > 0 ==> (chunks.len() - 1) * rows_per_chunk < height,
            forall|i: int|
                0 <= i < chunks.len() ==> {
                    &&& (#[trigger] chunks[i]).first_row == i * rows_per_chunk
                    &&& chunks[i].end_row == chunk_end(i, rows_per_chunk as int, height as int)
                },
        decreases height - row,
    {
        let ghost n = chunks.len() as int;
        let end: usize = if height - row > rows_per_chunk {
            row + rows_per_chunk
        } else {
            height
        };
        proof {
            assert((n + 1) * rows_per_chunk == n * rows_per_chunk + rows_per_chunk)
                by (nonlinear_arith);
        }
        chunks.push(RowChunk { first_row: row, end_row: end });
        row = end;
    }
    proof {
        lemma_count_from_bounds(height as int, rows_per_chunk as int, chunks.len() as int);
    }
    chunks
}

/// The column and row of linear pixel index `index` in a row-major image
/// `width` pixels wide.
pub fn pixel_location(width: usize, index: usize) -> (loc: (usize, usize))
    requires
        width > 0,
    ensures
        loc.0 < width,
        loc.1 * width + loc.0 == index,
{
    proof {
        lemma_fundamental_div_mod(index as int, width as int);
        lemma_mod_pos_bound(index as int, width as int);
        let q = index as int / width as int;
        assert(q * width == width * q) by (nonlinear_arith);
    }
    (index % width, index / width)
}

/// The chunks of a partition tile the image's rows: every row lies in exactly
/// one chunk, the one numbered `row / rows`.
pub proof fn lemma_row_in_one_chunk(height: int, rows: int, r: int)
    requires
        rows > 0,
        0 <= r < height,
    ensures
        chunk_holds(r / rows, rows, height, r),
        forall|j: int| #[trigger] chunk_holds(j, rows, height, r) ==> j == r / rows,
{
    let i = r / rows;
    lemma_fundamental_div_mod(r, rows);
    lemma_mod_pos_bound(r, rows);
    assert(0 <= i);
    assert(i * rows <= r < (i + 1) * rows) by (nonlinear_arith)
        requires
            r == rows * i + r % rows,
            0 <= r % rows < rows,
    ;
    let n = chunk_count(height, rows);
    lemma_fundamental_div_mod(height + rows - 1, rows);
    lemma_mod_pos_bound(height + rows - 1, rows);
    assert(i < n) by (nonlinear_arith)
        requires
            height + rows - 1 == rows * n + (height + rows - 1) % rows,
            0 <= (height + rows - 1) % rows < rows,
            i * rows <= r,
            r < height,
            rows > 0,
    ;
    assert forall|j: int| #[trigger] chunk_holds(j, rows, height, r) implies j == i by {
        assert(j * rows <= r && r < (j + 1) * rows);
        if j < i {
            assert((j + 1) * rows <= i * rows) by (nonlinear_arith)
                requires
                    j < i,
                    rows > 0,
            ;
        } else if j > i {
            assert((i + 1) * rows <= j * rows) by (nonlinear_arith)
                requires
                    j > i,
                    rows > 0,
            ;
        }
    }
}

/// Pixel `p`, in row `r` of an image `width` pixels wide, lies between pixel
/// indices `a * width` and `b * width` exactly when its row lies between `a`
/// and `b`.
proof fn lemma_span_is_row_band(a: int, b: int, width: int, p: int, r: int)
    requires
        width > 0,
        p == r * width + p % width,
        0 <= p % width < width,
    ensures
        (a * width <= p < b * width) <==> (a <= r < b),
{
    assert((r + 1) * width == r * width + width) by (nonlinear_arith);
    if a <= r {
        assert(a * width <= r * width) by (nonlinear_arith)
            requires
                a <= r,
                width > 0,
        ;
    } else {
        assert((r + 1) * width <= a * width) by (nonlinear_arith)
            requires
                a > r,
                width > 0,
        ;
    }
    if r < b {
        assert((r + 1) * width <= b * width) by (nonlinear_arith)
            requires
                r < b,
                width > 0,
        ;
    } else {
        assert(b * width <= r * width) by (nonlinear_arith)
            requires
                b <= r,
                width > 0,
        ;
    }
}

/// The pixel spans of a partition's chunks tile the image: every pixel index
/// lies in the span of exactly one chunk, the one that holds its row.
pub proof fn lemma_pixel_in_one_chunk(width: int, height: int, rows: int, p: int)
    requires
        rows > 0,
        width > 0,
        0 <= p < width * height,
    ensures
        chunk_holds_pixel((p / width) / rows, rows, height, width, p),
        forall|j: int| #[trigger] chunk_holds_pixel(j, rows, height, width, p) ==> j == (p / width)
            / rows,
{
    let r = p / width;
    lemma_fundamental_div_mod(p, width);
    lemma_mod_pos_bound(p, width);
    assert(p == r * width + p % width) by (nonlinear_arith)
        requires
            p == width * (p / width) + p % width,
            r == p / width,
    ;
    assert(0 <= r < height) by (nonlinear_arith)
        requires
            p == r * width + p % width,
            0 <= p % width < width,
            0 <= p < width * height,
            width > 0,
    ;
    lemma_row_in_one_chunk(height, rows, r);
    assert forall|j: int| #[trigger] chunk_holds_pixel(j, rows, height, width, p) implies j == r
        / rows by {
        lemma_span_is_row_band(j * rows, chunk_end(j, rows, height), width, p, r);
        assert(chunk_holds(j, rows, height, r));
    }
    let i = r / rows;
    lemma_span_is_row_band(i * rows, chunk_end(i, rows, height), width, p, r);
}

} // verus!
