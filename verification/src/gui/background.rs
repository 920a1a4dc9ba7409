//! The checkerboard background grid.
//!
//! The canvas is cleared in the light color and the dark cells are filled
//! on top: cell `(row, col)` is dark exactly when `row + col` is odd,
//! which together with the light clear gives the checkerboard. Row and
//! column counts are rounded up so the grid always covers the whole
//! canvas.

use vstd::prelude::*;
use vstd::arithmetic::div_mod::{
    lemma_div_basics_4, lemma_div_is_ordered, lemma_div_multiples_vanish,
    lemma_div_nonincreasing, lemma_fundamental_div_mod, lemma_mod_division_less_than_divisor,
};
use crate::geometry::{sat_i32, Rect};

verus! {

/// The least number of cells of the given size that covers `extent`.
pub open spec fn grid_cells_across(extent: int, size: int) -> int
    recommends
        size >= 1,
{
    (extent + size - 1) / size
}

/// The cell rectangle at grid coordinates `(row, col)`, coordinates
/// saturating at the machine range.
pub open spec fn grid_cell(row: int, col: int, size: int) -> Rect
    recommends
        0 <= row,
        0 <= col,
        1 <= size <= u32::MAX as int,
{
    Rect {
        x: sat_i32(col * size) as i32,
        y: sat_i32(row * size) as i32,
        w: size as u32,
        h: size as u32,
    }
}

/// The first dark column of a row: the one of the opposite parity, so
/// that `row + col` is odd.
pub open spec fn row_start_col(row: int) -> int {
    1 - row % 2
}

/// How many dark cells one row holds: columns `row_start_col(row)`,
/// `row_start_col(row) + 2`, ... while they do not pass `cols`.
pub open spec fn row_cell_count(row: int, cols: int) -> int {
    if cols < row_start_col(row) {
        0
    } else {
        (cols - row_start_col(row)) / 2 + 1
    }
}

/// The dark cells of one row, left to right.
pub open spec fn spec_row_cells(row: int, cols: int, size: int) -> Seq<Rect> {
    Seq::new(
        row_cell_count(row, cols) as nat,
        |j: int| grid_cell(row, row_start_col(row) + 2 * j, size),
    )
}

/// The dark cells of rows `0 .. nrows`, row by row.
pub open spec fn spec_rows(nrows: int, cols: int, size: int) -> Seq<Rect>
    decreases nrows,
{
    if nrows <= 0 {
        Seq::empty()
    } else {
        spec_rows(nrows - 1, cols, size) + spec_row_cells(nrows - 1, cols, size)
    }
}

/// All dark cells of the checkerboard covering a canvas: rows
/// `0 ..= grid_cells_across(height)`, columns up to
/// `grid_cells_across(width)` inclusive.
pub open spec fn spec_background_cells(canvas_width: int, canvas_height: int, size: int) -> Seq<
    Rect,
>
    recommends
        size >= 1,
{
    spec_rows(
        grid_cells_across(canvas_height, size) + 1,
        grid_cells_across(canvas_width, size),
        size,
    )
}

/// Computes the dark cells of the checkerboard background for a canvas of
/// the given size.
pub fn background_rects(canvas_width: u32, canvas_height: u32, size: u32) -> (r: Vec<Rect>)
    requires
        size >= 1,
    ensures
        r@ == spec_background_cells(canvas_width as int, canvas_height as int, size as int),
{
    let cols: u64 = (canvas_width as u64 + size as u64 - 1) / size as u64;
    let rows: u64 = (canvas_height as u64 + size as u64 - 1) / size as u64;
    proof {
        lemma_fundamental_div_mod(canvas_width as int + size as int - 1, size as int);
        lemma_fundamental_div_mod(canvas_height as int + size as int - 1, size as int);
        lemma_mod_division_less_than_divisor(canvas_width as int + size as int - 1, size as int);
        lemma_mod_division_less_than_divisor(canvas_height as int + size as int - 1, size as int);
        lemma_div_nonincreasing(canvas_width as int + size as int - 1, size as int);
        lemma_div_nonincreasing(canvas_height as int + size as int - 1, size as int);
    }
    let mut v: Vec<Rect> = Vec::new();
    let mut row: u64 = 0;
    while row <= rows
        invariant
            size >= 1,
            cols as int == grid_cells_across(canvas_width as int, size as int),
            rows as int == grid_cells_across(canvas_height as int, size as int),
            cols as int * size as int <= canvas_width as int + size as int - 1,
            rows as int * size as int <= canvas_height as int + size as int - 1,
            cols as int <= canvas_width as int + size as int - 1,
            rows as int <= canvas_height as int + size as int - 1,
            row <= rows + 1,
            v@ == spec_rows(row as int, cols as int, size as int),
        decreases rows + 1 - row,
    {
        let start: u64 = 1 - row % 2;
        let mut col: u64 = start;
        let ghost mut j: int = 0;
        proof {
            if cols as int >= start as int {
                lemma_div_basics_4(cols as int - start as int, 2);
            }
        }
        while col <= cols
            invariant
                size >= 1,
                cols as int * size as int <= canvas_width as int + size as int - 1,
                rows as int * size as int <= canvas_height as int + size as int - 1,
                cols as int <= canvas_width as int + size as int - 1,
                rows as int <= canvas_height as int + size as int - 1,
                row <= rows,
                start as int == row_start_col(row as int),
                col as int == start as int + 2 * j,
                0 <= j,
                j <= row_cell_count(row as int, cols as int),
                v@ == spec_rows(row as int, cols as int, size as int) + spec_row_cells(
                    row as int,
                    cols as int,
                    size as int,
                ).take(j),
            decreases cols + 2 - col,
        {
            proof {
                // this column's index is within the row's cell count
                lemma_div_multiples_vanish(j, 2);
                lemma_div_is_ordered(2 * j, cols as int - start as int, 2);
                assert(j < row_cell_count(row as int, cols as int));
                // the cell coordinates fit the machine word
                assert(col as int * size as int <= cols as int * size as int) by (nonlinear_arith)
                    requires
                        col as int <= cols as int,
                        size as int >= 0,
                ;
                assert(row as int * size as int <= rows as int * size as int) by (nonlinear_arith)
                    requires
                        row as int <= rows as int,
                        size as int >= 0,
                ;
            }
            let xv: u64 = col * size as u64;
            let yv: u64 = row * size as u64;
            let x: i32 = if xv > i32::MAX as u64 {
                i32::MAX
            } else {
                xv as i32
            };
            let y: i32 = if yv > i32::MAX as u64 {
                i32::MAX
            } else {
                yv as i32
            };
            proof {
                assert(spec_row_cells(row as int, cols as int, size as int)[j] == grid_cell(
                    row as int,
                    col as int,
                    size as int,
                ));
                assert(x as int == sat_i32((col as int) * (size as int)));
                assert(y as int == sat_i32((row as int) * (size as int)));
            }
            v.push(Rect { x, y, w: size, h: size });
            proof {
                assert(v@ =~= spec_rows(row as int, cols as int, size as int) + spec_row_cells(
                    row as int,
                    cols as int,
                    size as int,
                ).take(j + 1));
                j = j + 1;
            }
            col = col + 2;
        }
        proof {
            if j < row_cell_count(row as int, cols as int) {
                assert(cols as int >= start as int);
                lemma_fundamental_div_mod(cols as int - start as int, 2);
                lemma_mod_division_less_than_divisor(cols as int - start as int, 2);
                assert(2 * j <= 2 * ((cols as int - start as int) / 2));
                assert(col as int <= cols as int);
                assert(false);
            }
            assert(j == row_cell_count(row as int, cols as int));
            assert(spec_row_cells(row as int, cols as int, size as int).take(j)
                =~= spec_row_cells(row as int, cols as int, size as int));
            assert(spec_rows(row as int + 1, cols as int, size as int) == spec_rows(
                row as int,
                cols as int,
                size as int,
            ) + spec_row_cells(row as int, cols as int, size as int));
        }
        row = row + 1;
    }
    v
}

} // verus!
