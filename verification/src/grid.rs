//! Index arithmetic for grids held row after row.

use vstd::prelude::*;

verus! {

/// Row `y` of a grid of `width` by `height` cells starts at `y * width` and
/// ends within the grid.
pub proof fn lemma_row_bounds(width: int, height: int, y: int)
    requires
        0 <= y < height,
        0 <= width,
    ensures
        0 <= y * width,
        (y + 1) * width == y * width + width,
        y * width + width <= width * height,
{
    assert(0 <= y * width) by (nonlinear_arith)
        requires
            0 <= y,
            0 <= width,
    ;
    assert((y + 1) * width == y * width + width) by (nonlinear_arith);
    assert(y * width + width <= width * height) by (nonlinear_arith)
        requires
            y + 1 <= height,
            0 <= width,
    ;
}

/// An index into a grid of `width` columns names one column and one row.
pub proof fn lemma_index_splits(width: int, x: int, y: int)
    requires
        0 <= x < width,
        0 <= y,
    ensures
        (y * width + x) % width == x,
        (y * width + x) / width == y,
{
    assert((y * width + x) % width == x && (y * width + x) / width == y) by (nonlinear_arith)
        requires
            0 <= x < width,
            0 <= y,
    ;
}

/// Every index below `width * height` lies in a column below `width` and a
/// row below `height`.
pub proof fn lemma_index_in_grid(width: int, height: int, i: int)
    requires
        0 < width,
        0 <= i < width * height,
    ensures
        0 <= i % width < width,
        0 <= i / width < height,
        i == (i / width) * width + i % width,
{
    let y = i / width;
    let x = i % width;
    assert(i == y * width + x && 0 <= x < width && 0 <= y) by (nonlinear_arith)
        requires
            y == i / width,
            x == i % width,
            width > 0,
            i >= 0,
    ;
    assert(y < height) by (nonlinear_arith)
        requires
            i == y * width + x,
            0 <= x,
            i < width * height,
            width > 0,
    ;
}

/// An index is named by its column and row.
pub proof fn lemma_index_unique(width: int, i: int)
    requires
        0 < width,
        0 <= i,
    ensures
        i == (i / width) * width + i % width,
        0 <= i % width < width,
        0 <= i / width,
{
    assert(i == (i / width) * width + i % width && 0 <= i % width < width && 0 <= i / width)
        by (nonlinear_arith)
        requires
            0 < width,
            0 <= i,
    ;
}

} // verus!
