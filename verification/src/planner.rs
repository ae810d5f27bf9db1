//! Derivation of the integer pixel window for a cutout.
//!
//! Given the integer pixel coordinates that the requested sky position maps
//! to, the image dimensions and the initially requested window size in
//! pixels, this module decides whether the position lies on the image at
//! all, and if so derives a centered, half-open row/column window, shrinking
//! it by repeated halving while it would run off the image edge, and finally
//! reconciling the declared size with the number of pixels the window
//! actually spans.

use vstd::prelude::*;

verus! {

/// Largest image dimension and requested window size the planner accepts.
/// Keeps all window arithmetic comfortably inside `i64`.
pub const MAX_AXIS: i64 = 0x8000_0000;

/// Lower edge (inclusive) of a window of size `s` centered on pixel `c`.
pub open spec fn win_low(c: int, s: int) -> int {
    c - s / 2
}

/// Upper edge (exclusive) of a window of size `s` centered on pixel `c`.
pub open spec fn win_high(c: int, s: int) -> int {
    c + s / 2 + 1
}

/// Number of pixels a window of declared size `s` actually spans.
pub open spec fn win_span(s: int) -> int {
    2 * (s / 2) + 1
}

/// Whether a window of size `s` centered on `(x, y)` runs past the image
/// edge.  The row window (built from `x`) is held against the second axis
/// and the column window (built from `y`) against the first, matching the
/// row-major order in which the pixel region is later addressed.  The upper
/// edge is held one short of the axis length, a deliberately conservative
/// bound.
pub open spec fn window_oob(x: int, y: int, s: int, naxis1: int, naxis2: int) -> bool {
    ||| win_high(x, s) >= naxis2
    ||| win_high(y, s) >= naxis1
    ||| win_low(x, s) < 0
    ||| win_low(y, s) < 0
}

/// The window size after the shrinking loop: halve while the window runs
/// off the image edge and more than two pixels are left.
pub open spec fn shrunk_imsize(x: int, y: int, s: int, naxis1: int, naxis2: int) -> int
    decreases s,
{
    if s > 2 && window_oob(x, y, s, naxis1, naxis2) {
        shrunk_imsize(x, y, s / 2, naxis1, naxis2)
    } else {
        s
    }
}

/// The declared size after parity reconciliation: when the centering
/// arithmetic makes the window span one pixel more than `s` (which happens
/// exactly for even `s`), the declared size is raised to match the span.
pub open spec fn corrected_imsize(s: int) -> int {
    if win_span(s) == s + 1 {
        s + 1
    } else {
        s
    }
}

/// The derived extraction region: half-open row and column ranges and the
/// declared square size.  Row and column bounds may stick out past the
/// image on a degenerate image smaller than the two-pixel floor; extraction
/// must hold the ranges against the image once more before reading.
#[derive(Clone, Copy, PartialEq, Eq, Structural, Debug)]
pub struct PixelWindow {
    pub row_start: i64,
    pub row_end: i64,
    pub col_start: i64,
    pub col_end: i64,
    pub imsize: i64,
}

/// The planned window for a request, as a single mathematical function of
/// the inputs: `None` exactly when the rounded center lies off the image,
/// otherwise the shrunk, parity-reconciled window around the center.
pub open spec fn planned_window(x: int, y: int, naxis1: int, naxis2: int, s0: int) -> Option<
    PixelWindow,
> {
    if x < 0 || x >= naxis1 || y < 0 || y >= naxis2 {
        None
    } else {
        let s = shrunk_imsize(x, y, s0, naxis1, naxis2);
        Some(
            PixelWindow {
                row_start: win_low(x, s) as i64,
                row_end: win_high(x, s) as i64,
                col_start: win_low(y, s) as i64,
                col_end: win_high(y, s) as i64,
                imsize: corrected_imsize(s) as i64,
            },
        )
    }
}

/// The shrinking loop never grows the window.
pub proof fn lemma_shrunk_le(x: int, y: int, s: int, naxis1: int, naxis2: int)
    requires
        s >= 0,
    ensures
        0 <= shrunk_imsize(x, y, s, naxis1, naxis2) <= s,
    decreases s,
{
    if s > 2 && window_oob(x, y, s, naxis1, naxis2) {
        lemma_shrunk_le(x, y, s / 2, naxis1, naxis2);
    }
}

/// Shrinking gives up only at the two-pixel floor: a window still running
/// off the image edge after the loop has at most two declared pixels.
pub proof fn lemma_oob_only_when_small(x: int, y: int, s: int, naxis1: int, naxis2: int)
    requires
        s >= 0,
    ensures
        window_oob(x, y, shrunk_imsize(x, y, s, naxis1, naxis2), naxis1, naxis2)
            ==> shrunk_imsize(x, y, s, naxis1, naxis2) <= 2,
    decreases s,
{
    if s > 2 && window_oob(x, y, s, naxis1, naxis2) {
        lemma_oob_only_when_small(x, y, s / 2, naxis1, naxis2);
    }
}

/// A window that still has more than two declared pixels after shrinking
/// lies fully inside the image, held row-against-axis-2 and
/// column-against-axis-1 as the region is addressed.
pub proof fn lemma_large_window_contained(x: int, y: int, s: int, naxis1: int, naxis2: int)
    requires
        s >= 0,
    ensures
        shrunk_imsize(x, y, s, naxis1, naxis2) > 2 ==> {
            let sf = shrunk_imsize(x, y, s, naxis1, naxis2);
            &&& 0 <= win_low(x, sf)
            &&& win_high(x, sf) < naxis2
            &&& 0 <= win_low(y, sf)
            &&& win_high(y, sf) < naxis1
        },
{
    lemma_oob_only_when_small(x, y, s, naxis1, naxis2);
}

/// A planned window of more than three declared pixels lies fully inside
/// the image: near an edge the shrinking either clamps the window into the
/// image or degrades it to the two-pixel floor (declared as at most three
/// after parity reconciliation) before giving up.
pub proof fn lemma_large_planned_window_contained(
    x: int,
    y: int,
    naxis1: int,
    naxis2: int,
    s0: int,
)
    requires
        0 <= naxis1 <= MAX_AXIS,
        0 <= naxis2 <= MAX_AXIS,
        0 <= s0 <= MAX_AXIS,
        planned_window(x, y, naxis1, naxis2, s0) is Some,
        planned_window(x, y, naxis1, naxis2, s0).unwrap().imsize > 3,
    ensures
        ({
            let w = planned_window(x, y, naxis1, naxis2, s0).unwrap();
            &&& 0 <= w.row_start
            &&& w.row_end < naxis2
            &&& 0 <= w.col_start
            &&& w.col_end < naxis1
        }),
{
    lemma_shrunk_le(x, y, s0, naxis1, naxis2);
    lemma_large_window_contained(x, y, s0, naxis1, naxis2);
}

/// Planning is a pure function of its inputs: two windows planned for the
/// same request are the same window.  Together with the header derivation
/// being a pure function as well, repeating a cutout reproduces the same
/// extraction region and description.
pub proof fn lemma_planning_deterministic(
    r1: Option<PixelWindow>,
    r2: Option<PixelWindow>,
    x: int,
    y: int,
    naxis1: int,
    naxis2: int,
    s0: int,
)
    requires
        r1 == planned_window(x, y, naxis1, naxis2, s0),
        r2 == planned_window(x, y, naxis1, naxis2, s0),
    ensures
        r1 == r2,
{
}

/// Compute the extraction window for one position.
///
/// Returns `None` exactly when the rounded pixel center `(x_pix, y_pix)`
/// lies outside `[0, naxis1) x [0, naxis2)`; the caller skips such a
/// position without producing an output.  Otherwise the result is the
/// planned window: its declared size is at least one, never more than one
/// above the requested size, and both ranges span exactly the declared
/// number of pixels.
pub fn plan_window(x_pix: i64, y_pix: i64, naxis1: i64, naxis2: i64, imsize0: i64) -> (r: Option<
    PixelWindow,
>)
    requires
        0 <= naxis1 <= MAX_AXIS,
        0 <= naxis2 <= MAX_AXIS,
        0 <= imsize0 <= MAX_AXIS,
    ensures
        r == planned_window(x_pix as int, y_pix as int, naxis1 as int, naxis2 as int, imsize0 as int),
        (r is None) <==> !(0 <= x_pix < naxis1 && 0 <= y_pix < naxis2),
        r matches Some(w) ==> {
            &&& 1 <= w.imsize <= imsize0 + 1
            &&& w.row_end - w.row_start == w.imsize
            &&& w.col_end - w.col_start == w.imsize
        },
{
    if x_pix < 0 || x_pix >= naxis1 || y_pix < 0 || y_pix >= naxis2 {
        return None;
    }
    let ghost s0: int = imsize0 as int;
    let mut imsize: i64 = imsize0;

    let mut lim_low_row: i64 = x_pix - imsize / 2;
    let mut lim_up_row: i64 = x_pix + imsize / 2 + 1;
    let mut lim_low_col: i64 = y_pix - imsize / 2;
    let mut lim_up_col: i64 = y_pix + imsize / 2 + 1;

    while (lim_up_row >= naxis2 || lim_up_col >= naxis1 || lim_low_row < 0 || lim_low_col < 0)
        && imsize > 2
        invariant
            0 <= x_pix < naxis1 <= MAX_AXIS,
            0 <= y_pix < naxis2 <= MAX_AXIS,
            0 <= imsize <= imsize0 <= MAX_AXIS,
            lim_low_row == win_low(x_pix as int, imsize as int),
            lim_up_row == win_high(x_pix as int, imsize as int),
            lim_low_col == win_low(y_pix as int, imsize as int),
            lim_up_col == win_high(y_pix as int, imsize as int),
            shrunk_imsize(x_pix as int, y_pix as int, imsize as int, naxis1 as int, naxis2 as int)
                == shrunk_imsize(x_pix as int, y_pix as int, s0, naxis1 as int, naxis2 as int),
        decreases imsize,
    {
        imsize = imsize / 2;

        lim_low_row = x_pix - imsize / 2;
        lim_up_row = x_pix + imsize / 2 + 1;
        lim_low_col = y_pix - imsize / 2;
        lim_up_col = y_pix + imsize / 2 + 1;
    }
    assert(imsize == shrunk_imsize(x_pix as int, y_pix as int, s0, naxis1 as int, naxis2 as int));

    if (lim_up_row - lim_low_row) == imsize + 1 && (lim_up_col - lim_low_col) == imsize + 1 {
        imsize = imsize + 1;
    }
    Some(
        PixelWindow {
            row_start: lim_low_row,
            row_end: lim_up_row,
            col_start: lim_low_col,
            col_end: lim_up_col,
            imsize,
        },
    )
}

/// Whether the derived window truly lies inside the image, row range on the
/// second axis and column range on the first; extraction consults this
/// before reading so that a degenerate window near the edge of a tiny image
/// surfaces as a per-position failure, never as a wild read.
pub fn window_fits(w: &PixelWindow, naxis1: i64, naxis2: i64) -> (r: bool)
    ensures
        r <==> (0 <= w.row_start && w.row_end <= naxis2 && 0 <= w.col_start && w.col_end <= naxis1
            && w.row_start <= w.row_end && w.col_start <= w.col_end),
{
    0 <= w.row_start && w.row_end <= naxis2 && 0 <= w.col_start && w.col_end <= naxis1
        && w.row_start <= w.row_end && w.col_start <= w.col_end
}

/// Number of pixels the square extraction must yield; the extracted region
/// is held to this count before anything is written.
pub fn expected_pixels(w: &PixelWindow) -> (r: u64)
    requires
        0 <= w.imsize <= MAX_AXIS + 1,
    ensures
        r == w.imsize * w.imsize,
{
    let v: u64 = w.imsize as u64;
    proof {
        assert(v * v <= 0x8000_0001u64 * 0x8000_0001u64) by (nonlinear_arith)
            requires
                v <= 0x8000_0001u64,
        ;
    }
    v * v
}

} // verus!
