//! Row-major positions of a `width` × `height` raster of terminal cells.

use vstd::prelude::*;

verus! {

/// Row-major indexing of a `w` × `h` raster.
pub proof fn lemma_row_major(x: int, y: int, w: int, h: int)
    requires
        0 <= x < w,
        0 <= y < h,
    ensures
        0 <= y * w + x < w * h,
        (y * w + x) % w == x,
        (y * w + x) / w == y,
{
    assert(0 <= y * w + x < w * h) by (nonlinear_arith)
        requires
            0 <= x < w,
            0 <= y < h,
    ;
    vstd::arithmetic::div_mod::lemma_fundamental_div_mod_converse(y * w + x, w, y, x);
}

/// A position other than row-major `(x, y)` has other coordinates.
pub proof fn lemma_row_major_distinct(i: int, x: int, y: int, w: int, h: int)
    requires
        0 <= x < w,
        0 <= y < h,
        0 <= i,
        i != y * w + x,
    ensures
        !(i % w == x && i / w == y),
{
    vstd::arithmetic::div_mod::lemma_fundamental_div_mod(i, w);
    assert(w * (i / w) == (i / w) * w) by (nonlinear_arith);
}

/// The coordinates of a position of a `w` × `h` raster are within it.
pub proof fn lemma_row_major_bounds(i: int, w: int, h: int)
    requires
        0 <= w,
        0 <= h,
        0 <= i < w * h,
    ensures
        w > 0,
        0 <= i % w < w,
        0 <= i / w < h,
{
    if w == 0 {
        assert(w * h == 0);
    }
    vstd::arithmetic::div_mod::lemma_fundamental_div_mod(i, w);
    assert(0 <= i / w < h) by (nonlinear_arith)
        requires
            w > 0,
            0 <= i < w * h,
            i == w * (i / w) + i % w,
            0 <= i % w < w,
    ;
}

} // verus!
