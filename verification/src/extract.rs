//! Extraction of the window's samples from the full image array.
//!
//! The image samples themselves are opaque to the cutout logic: a sample
//! crosses into this module as the 64 bits of its stored representation
//! and leaves it unchanged.  What this module guarantees is the indexing:
//! which source pixel lands where in the extracted square, with every
//! access inside the array.

use vstd::arithmetic::div_mod::lemma_fundamental_div_mod_converse;
use vstd::prelude::*;

use crate::planner::{
    lemma_shrunk_le, planned_window, shrunk_imsize, window_fits, PixelWindow, MAX_AXIS,
};

verus! {

/// Row-major position of a pixel in the flat image array: `row` runs over
/// the slow axis, `col` over the fast one of length `naxis1`.
pub open spec fn flat_index(naxis1: int, row: int, col: int) -> int {
    row * naxis1 + col
}

/// The samples of the window, in row-major order: sample `k` of the
/// extraction is the source pixel `k / width` rows below the window's top
/// row, `k % width` columns right of its left column.
pub open spec fn window_samples(p: Seq<u64>, naxis1: int, w: PixelWindow) -> Seq<u64> {
    let width = w.col_end - w.col_start;
    Seq::new(
        ((w.row_end - w.row_start) * width) as nat,
        |k: int|
            p[flat_index(naxis1, w.row_start + k / width, w.col_start + k % width)],
    )
}

/// A window the planner produced extracts exactly its declared number of
/// pixels per axis — `imsize` squared samples in all, never a row or
/// column more.
pub proof fn lemma_planned_window_sample_count(
    p: Seq<u64>,
    x: int,
    y: int,
    naxis1: int,
    naxis2: int,
    s0: int,
)
    requires
        0 <= naxis1 <= MAX_AXIS as int,
        0 <= naxis2 <= MAX_AXIS as int,
        0 <= s0 <= MAX_AXIS as int,
        planned_window(x, y, naxis1, naxis2, s0) is Some,
    ensures
        ({
            let w = planned_window(x, y, naxis1, naxis2, s0).unwrap();
            &&& w.row_end - w.row_start == w.imsize
            &&& w.col_end - w.col_start == w.imsize
            &&& window_samples(p, naxis1, w).len() == w.imsize * w.imsize
        }),
{
    lemma_shrunk_le(x, y, s0, naxis1, naxis2);
}

/// Copy the window out of the flat image array.
///
/// Returns `None` exactly when the window sticks out of the image (the
/// degenerate tiny-image case the planner leaves unresolved) or the array
/// holds fewer samples than the image dimensions declare; either is a
/// per-position failure.  Otherwise the result holds exactly the window's
/// samples in row-major order — for a planner window, `imsize` squared of
/// them.
pub fn extract_window(pixels: &Vec<u64>, naxis1: i64, naxis2: i64, w: &PixelWindow) -> (r: Option<
    Vec<u64>,
>)
    requires
        0 <= naxis1 <= MAX_AXIS,
        0 <= naxis2 <= MAX_AXIS,
    ensures
        r is Some <==> {
            &&& 0 <= w.row_start && w.row_end <= naxis2
            &&& 0 <= w.col_start && w.col_end <= naxis1
            &&& w.row_start <= w.row_end && w.col_start <= w.col_end
            &&& naxis1 * naxis2 <= pixels@.len()
        },
        r matches Some(v) ==> v@ == window_samples(pixels@, naxis1 as int, *w),
{
    if !window_fits(w, naxis1, naxis2) {
        return None;
    }
    proof {
        assert(naxis1 * naxis2 <= 0x4000_0000_0000_0000int) by (nonlinear_arith)
            requires
                0 <= naxis1 <= 0x8000_0000i64,
                0 <= naxis2 <= 0x8000_0000i64,
        ;
    }
    let need: u64 = (naxis1 as u64) * (naxis2 as u64);
    if (pixels.len() as u64) < need {
        return None;
    }

    let width: i64 = w.col_end - w.col_start;
    let ghost total: int = (w.row_end - w.row_start) * width;
    proof {
        assert((w.row_end - w.row_start) * width >= 0) by (nonlinear_arith)
            requires
                w.row_end - w.row_start >= 0,
                width >= 0,
        ;
    }

    let mut out: Vec<u64> = Vec::new();
    let mut row: i64 = w.row_start;
    while row < w.row_end
        invariant
            0 <= naxis1 <= MAX_AXIS,
            0 <= naxis2 <= MAX_AXIS,
            0 <= w.row_start && w.row_end <= naxis2,
            0 <= w.col_start && w.col_end <= naxis1,
            w.row_start <= row <= w.row_end,
            w.col_start <= w.col_end,
            width == w.col_end - w.col_start,
            total == (w.row_end - w.row_start) * width,
            need == naxis1 * naxis2,
            need <= pixels@.len(),
            out@.len() == (row - w.row_start) * width,
            out@.len() <= total,
            out@ =~= window_samples(pixels@, naxis1 as int, *w).subrange(0, out@.len() as int),
        decreases w.row_end - row,
    {
        let mut col: i64 = w.col_start;
        proof {
            assert((row + 1 - w.row_start) * width == (row - w.row_start) * width + width)
                by (nonlinear_arith);
            assert((row - w.row_start) * width + width <= (w.row_end - w.row_start) * width)
                by (nonlinear_arith)
                requires
                    row + 1 <= w.row_end,
                    width >= 0,
            ;
        }
        while col < w.col_end
            invariant
                0 <= naxis1 <= MAX_AXIS,
                0 <= naxis2 <= MAX_AXIS,
                0 <= w.row_start && w.row_end <= naxis2,
                0 <= w.col_start && w.col_end <= naxis1,
                w.row_start <= row < w.row_end,
                w.col_start <= col <= w.col_end,
                width == w.col_end - w.col_start,
                total == (w.row_end - w.row_start) * width,
                need == naxis1 * naxis2,
                need <= pixels@.len(),
                out@.len() == (row - w.row_start) * width + (col - w.col_start),
                (row - w.row_start) * width + width <= total,
                out@ =~= window_samples(pixels@, naxis1 as int, *w).subrange(
                    0,
                    out@.len() as int,
                ),
            decreases w.col_end - col,
        {
            proof {
                assert(row * naxis1 + col < naxis1 * naxis2) by (nonlinear_arith)
                    requires
                        0 <= col < naxis1,
                        0 <= row < naxis2,
                ;
                assert(row * naxis1 >= 0) by (nonlinear_arith)
                    requires
                        row >= 0,
                        naxis1 >= 0,
                ;
                assert(naxis1 * naxis2 <= 0x4000_0000_0000_0000int) by (nonlinear_arith)
                    requires
                        0 <= naxis1 <= 0x8000_0000i64,
                        0 <= naxis2 <= 0x8000_0000i64,
                ;
                assert(0 <= row * naxis1 + col < pixels@.len());
                lemma_fundamental_div_mod_converse(
                    (row - w.row_start) * width + (col - w.col_start),
                    width as int,
                    row - w.row_start,
                    col - w.col_start,
                );
            }
            let idx: i64 = row * naxis1 + col;
            let ghost prev: Seq<u64> = out@;
            out.push(pixels[idx as usize]);
            proof {
                let k: int = prev.len() as int;
                let samples = window_samples(pixels@, naxis1 as int, *w);
                assert(k / (width as int) == row - w.row_start);
                assert(k % (width as int) == col - w.col_start);
                assert(samples[k] == pixels@[flat_index(naxis1 as int, row as int, col as int)]);
                assert(idx == flat_index(naxis1 as int, row as int, col as int));
                assert(pixels@.len() == pixels.len());
                assert(idx as usize == idx as int);
                assert(out@[k] == samples[k]);
                assert forall|i: int| 0 <= i < k implies out@[i] == samples[i] by {
                    assert(prev[i] == samples.subrange(0, k)[i]);
                }
                assert(out@ =~= samples.subrange(0, k + 1));
            }
            col = col + 1;
        }
        row = row + 1;
    }
    proof {
        assert(out@ =~= window_samples(pixels@, naxis1 as int, *w));
    }
    Some(out)
}

} // verus!
