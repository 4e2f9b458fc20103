use pixboard::board::Board;
use pixboard::density::aggregate;

#[test]
fn full_block_counts_nine() {
    // Overlaying '8', '7', '0' and '4' at the origin sets every pixel of
    // rows 0..3, columns 0..3, so the block at (0, 0) counts 9.
    let mut b = Board::new();
    for c in ['8', '7', '0', '4'] {
        b.put_char(c, 0, 0);
    }
    for row in 0..3 {
        for col in 0..3 {
            assert!(b.pixel(row, col), "pixel({}, {})", row, col);
        }
    }
    let grid = aggregate(&b, 1, 1);
    assert_eq!(grid[0][0], 9);
}

#[test]
fn diagonal_block_counts_three() {
    // Each '.' sets exactly one pixel; the three placements put a diagonal
    // into the 3x3 window at column 1, row 5.
    let mut b = Board::new();
    b.put_char('.', 0, 0); // pixel (5, 1)
    b.put_char('.', 1, 1); // pixel (6, 2)
    b.put_char('.', 2, 2); // pixel (7, 3)
    let grid = aggregate(&b, 8, 8);
    assert_eq!(grid[5][1], 3);
    // the window one column to the left sees only two of the pixels
    assert_eq!(grid[5][0], 2);
}

#[test]
fn aggregate_dimensions() {
    let b = Board::new();
    let grid = aggregate(&b, 7, 30);
    assert_eq!(grid.len(), 30);
    for row in &grid {
        assert_eq!(row.len(), 7);
    }
}

#[test]
fn window_clips_at_right_edge() {
    // '1' placed at the right edge: its column 2 lands on canvas column 30.
    let mut b = Board::new();
    b.put_char('1', 28, 0);
    let grid = aggregate(&b, 32, 6);
    // row 5 of '1' is 0b1110, so canvas pixel (5, 30) is set and column 31
    // stays clear; the windows at columns 30 and 31 are clipped to the
    // canvas and count 1 and 0.
    assert_eq!(grid[5][30], 1);
    assert_eq!(grid[5][31], 0);
}
