//! The vector document model: the numeric labels and grid lines that the
//! exported image holds, with the document's size metadata. The document is
//! rendered at double the nominal viewport scale: its declared width and
//! height are twice the viewport's.

use vstd::prelude::*;

use crate::board::Board;
use crate::board::spec_max_x;
use crate::board::spec_max_y;
use crate::density::aggregate;
use crate::density::spec_block_count;

verus! {

/// A numeric label centered at `(x, y)`, displaying `value`.
#[derive(Copy, Clone, Debug)]
pub struct TextLabel {
    pub x: usize,
    pub y: usize,
    pub value: u32,
}

/// A straight line from `(x1, y1)` to `(x2, y2)`.
#[derive(Copy, Clone, Debug)]
pub struct GridLine {
    pub x1: usize,
    pub y1: usize,
    pub x2: usize,
    pub y2: usize,
}

/// The drawable content of one export: size metadata, one label per density
/// cell (row-major), and the horizontal and vertical separator lines.
pub struct VectorDoc {
    pub width: usize,
    pub height: usize,
    pub view_width: usize,
    pub view_height: usize,
    pub labels: Vec<Vec<TextLabel>>,
    pub h_lines: Vec<GridLine>,
    pub v_lines: Vec<GridLine>,
}

/// What a well-formed document for a `max_x` by `max_y` density grid holds:
/// the declared width and height are twice the viewport's `max_x*30+1` by
/// `max_y*30+1`; cell `(x, y)`'s label sits at `(x*30+15, y*30+25)`;
/// `max_y+1` horizontal lines span the full width at every row boundary and
/// `max_x+1` vertical lines span the full height at every column boundary.
pub open spec fn spec_doc_layout(d: VectorDoc, max_x: int, max_y: int) -> bool {
    &&& d.width == (max_x * 30 + 1) * 2
    &&& d.height == (max_y * 30 + 1) * 2
    &&& d.view_width == max_x * 30 + 1
    &&& d.view_height == max_y * 30 + 1
    &&& d.labels@.len() == max_y
    &&& forall|y: int| 0 <= y < max_y ==> #[trigger] d.labels@[y]@.len() == max_x
    &&& forall|y: int, x: int|
        0 <= y < max_y && 0 <= x < max_x ==> {
            &&& (#[trigger] d.labels@[y]@[x]).x == x * 30 + 15
            &&& d.labels@[y]@[x].y == y * 30 + 25
        }
    &&& d.h_lines@.len() == max_y + 1
    &&& forall|i: int|
        0 <= i <= max_y ==> {
            &&& (#[trigger] d.h_lines@[i]).x1 == 0
            &&& d.h_lines@[i].y1 == i * 30
            &&& d.h_lines@[i].x2 == max_x * 30 + 1
            &&& d.h_lines@[i].y2 == i * 30
        }
    &&& d.v_lines@.len() == max_x + 1
    &&& forall|i: int|
        0 <= i <= max_x ==> {
            &&& (#[trigger] d.v_lines@[i]).x1 == i * 30
            &&& d.v_lines@[i].y1 == 0
            &&& d.v_lines@[i].x2 == i * 30
            &&& d.v_lines@[i].y2 == max_y * 30 + 1
        }
}

/// Builds the document for a density grid: one label per cell, a horizontal
/// line per row boundary and a vertical line per column boundary.
pub fn build_doc(grid: &Vec<Vec<u32>>, max_x: usize, max_y: usize) -> (d: VectorDoc)
    requires
        max_x <= 32,
        max_y <= 32,
        grid@.len() == max_y,
        forall|y: int| 0 <= y < max_y ==> #[trigger] grid@[y]@.len() == max_x,
    ensures
        spec_doc_layout(d, max_x as int, max_y as int),
        forall|y: int, x: int|
            0 <= y < max_y && 0 <= x < max_x ==> (#[trigger] d.labels@[y]@[x]).value
                == grid@[y]@[x],
{
    let mut labels: Vec<Vec<TextLabel>> = Vec::new();
    let mut y: usize = 0;
    while y < max_y
        invariant
            max_x <= 32,
            max_y <= 32,
            grid@.len() == max_y,
            forall|j: int| 0 <= j < max_y ==> #[trigger] grid@[j]@.len() == max_x,
            y <= max_y,
            labels@.len() == y,
            forall|j: int| 0 <= j < y ==> #[trigger] labels@[j]@.len() == max_x,
            forall|j: int, x: int|
                0 <= j < y && 0 <= x < max_x ==> {
                    &&& (#[trigger] labels@[j]@[x]).x == x * 30 + 15
                    &&& labels@[j]@[x].y == j * 30 + 25
                    &&& labels@[j]@[x].value == grid@[j]@[x]
                },
        decreases max_y - y,
    {
        let mut line: Vec<TextLabel> = Vec::new();
        let mut x: usize = 0;
        while x < max_x
            invariant
                max_x <= 32,
                max_y <= 32,
                grid@.len() == max_y,
                forall|j: int| 0 <= j < max_y ==> #[trigger] grid@[j]@.len() == max_x,
                y < max_y,
                x <= max_x,
                line@.len() == x,
                forall|i: int|
                    0 <= i < x ==> {
                        &&& (#[trigger] line@[i]).x == i * 30 + 15
                        &&& line@[i].y == y * 30 + 25
                        &&& line@[i].value == grid@[y as int]@[i]
                    },
            decreases max_x - x,
        {
            line.push(TextLabel { x: x * 30 + 15, y: y * 30 + 25, value: grid[y][x] });
            x = x + 1;
        }
        labels.push(line);
        y = y + 1;
    }
    let mut h_lines: Vec<GridLine> = Vec::new();
    let mut i: usize = 0;
    while i <= max_y
        invariant
            max_x <= 32,
            max_y <= 32,
            i <= max_y + 1,
            h_lines@.len() == i,
            forall|j: int|
                0 <= j < i ==> {
                    &&& (#[trigger] h_lines@[j]).x1 == 0
                    &&& h_lines@[j].y1 == j * 30
                    &&& h_lines@[j].x2 == max_x * 30 + 1
                    &&& h_lines@[j].y2 == j * 30
                },
        decreases max_y + 1 - i,
    {
        h_lines.push(GridLine { x1: 0, y1: i * 30, x2: max_x * 30 + 1, y2: i * 30 });
        i = i + 1;
    }
    let mut v_lines: Vec<GridLine> = Vec::new();
    let mut k: usize = 0;
    while k <= max_x
        invariant
            max_x <= 32,
            max_y <= 32,
            k <= max_x + 1,
            v_lines@.len() == k,
            forall|j: int|
                0 <= j < k ==> {
                    &&& (#[trigger] v_lines@[j]).x1 == j * 30
                    &&& v_lines@[j].y1 == 0
                    &&& v_lines@[j].x2 == j * 30
                    &&& v_lines@[j].y2 == max_y * 30 + 1
                },
        decreases max_x + 1 - k,
    {
        v_lines.push(GridLine { x1: k * 30, y1: 0, x2: k * 30, y2: max_y * 30 + 1 });
        k = k + 1;
    }
    VectorDoc {
        width: (max_x * 30 + 1) * 2,
        height: (max_y * 30 + 1) * 2,
        view_width: max_x * 30 + 1,
        view_height: max_y * 30 + 1,
        labels,
        h_lines,
        v_lines,
    }
}

/// Runs the whole reduction for a canvas: finds the used bounds, aggregates
/// the density grid over them, and builds the document. Returns `None`
/// exactly when the used region reaches so far down that the 3-row window
/// of the last block row would leave the canvas.
pub fn make_document(board: &Board) -> (r: Option<VectorDoc>)
    requires
        board.wf(),
    ensures
        r is Some <==> spec_max_y(board@, 32) + 2 <= 32,
        r matches Some(d) ==> {
            &&& spec_doc_layout(d, spec_max_x(board@), spec_max_y(board@, 32))
            &&& forall|y: int, x: int|
                0 <= y < spec_max_y(board@, 32) && 0 <= x < spec_max_x(board@) ==> (
                #[trigger] d.labels@[y]@[x]).value == spec_block_count(board@, x, y)
        },
{
    let (max_x, max_y) = board.find_max_used();
    if max_y + 2 > 32 {
        return None;
    }
    let grid = aggregate(board, max_x, max_y);
    let doc = build_doc(&grid, max_x, max_y);
    Some(doc)
}

} // verus!
