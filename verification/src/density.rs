//! Reduces the canvas to a coarse grid of set-pixel counts: entry `(x, y)`
//! counts the set pixels in the 3-row window starting at canvas row `y`,
//! restricted to the 3-column window starting at canvas column `x` (clipped
//! at the right edge of the canvas).

use vstd::prelude::*;

use crate::board::Board;
use crate::board::spec_pixel;

verus! {

/// The bit of `row` at column `c` as 0 or 1; columns outside the canvas
/// count as 0.
pub open spec fn spec_col_bit(row: u32, c: int) -> int {
    if 0 <= c < 32 {
        ((row >> ((31 - c) as u32)) & 1u32) as int
    } else {
        0
    }
}

/// The number of set bits of `row` among columns `x`, `x + 1`, `x + 2`.
pub open spec fn spec_row_window(row: u32, x: int) -> int {
    spec_col_bit(row, x) + spec_col_bit(row, x + 1) + spec_col_bit(row, x + 2)
}

/// The number of set pixels in the 3x3 window whose top-left corner is at
/// column `x`, row `y`.
pub open spec fn spec_block_count(rows: Seq<u32>, x: int, y: int) -> int
    recommends
        0 <= y,
        y + 2 < rows.len(),
{
    spec_row_window(rows[y], x) + spec_row_window(rows[y + 1], x) + spec_row_window(rows[y + 2], x)
}

/// The bit of `row` at column `c`, or 0 past the right edge.
fn col_bit(row: u32, c: usize) -> (b: u32)
    ensures
        b == spec_col_bit(row, c as int),
        b <= 1,
    {
    if c < 32 {
        let sh: u32 = (31 - c) as u32;
        let b = (row >> sh) & 1u32;
        proof {
            assert((row >> sh) & 1u32 <= 1) by (bit_vector);
        }
        b
    } else {
        0u32
    }
}

/// The set-bit count of one 3-column window of one row.
fn row_window(row: u32, x: usize) -> (n: u32)
    requires
        x <= 32,
    ensures
        n == spec_row_window(row, x as int),
        n <= 3,
{
    col_bit(row, x) + col_bit(row, x + 1) + col_bit(row, x + 2)
}

/// Builds the density grid of the used region: `max_y` rows of `max_x`
/// entries, entry `(x, y)` being the set-pixel count of the 3x3 window at
/// column `x`, row `y`. The 3-row lookahead requires `max_y + 2 <= 32`.
pub fn aggregate(board: &Board, max_x: usize, max_y: usize) -> (grid: Vec<Vec<u32>>)
    requires
        board.wf(),
        max_x <= 32,
        max_y + 2 <= 32,
    ensures
        grid@.len() == max_y,
        forall|y: int| 0 <= y < max_y ==> #[trigger] grid@[y]@.len() == max_x,
        forall|y: int, x: int|
            0 <= y < max_y && 0 <= x < max_x ==> #[trigger] grid@[y]@[x] == spec_block_count(
                board@,
                x,
                y,
            ),
{
    let mut grid: Vec<Vec<u32>> = Vec::new();
    let mut y: usize = 0;
    while y < max_y
        invariant
            board.wf(),
            max_x <= 32,
            max_y + 2 <= 32,
            y <= max_y,
            grid@.len() == y,
            forall|j: int| 0 <= j < y ==> #[trigger] grid@[j]@.len() == max_x,
            forall|j: int, x: int|
                0 <= j < y && 0 <= x < max_x ==> #[trigger] grid@[j]@[x] == spec_block_count(
                    board@,
                    x,
                    j,
                ),
        decreases max_y - y,
    {
        let r0 = board.row_bits(y);
        let r1 = board.row_bits(y + 1);
        let r2 = board.row_bits(y + 2);
        let mut line: Vec<u32> = Vec::new();
        let mut x: usize = 0;
        while x < max_x
            invariant
                board.wf(),
                max_x <= 32,
                y + 2 < 32,
                r0 == board@[y as int],
                r1 == board@[y as int + 1],
                r2 == board@[y as int + 2],
                x <= max_x,
                line@.len() == x,
                forall|i: int|
                    0 <= i < x ==> #[trigger] line@[i] == spec_block_count(board@, i, y as int),
            decreases max_x - x,
        {
            let v = row_window(r0, x) + row_window(r1, x) + row_window(r2, x);
            line.push(v);
            x = x + 1;
        }
        grid.push(line);
        y = y + 1;
    }
    grid
}

} // verus!
