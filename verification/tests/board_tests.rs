use pixboard::board::Board;
use pixboard::board::string_fits;
use pixboard::glyph::PixChar4x6;

#[test]
fn new_board_is_blank() {
    let b = Board::new();
    for i in 0..32 {
        assert_eq!(b.row_bits(i), 0);
    }
}

#[test]
fn place_glyph_reads_back() {
    let mut b = Board::new();
    b.put_char('5', 3, 4);
    let g = PixChar4x6::new('5');
    for r in 0..6 {
        for col in 0..4 {
            assert_eq!(b.pixel(4 + r, 3 + col), g.pix(r, col), "pixel({}, {})", 4 + r, 3 + col);
        }
    }
    for row in 0..32 {
        for col in 0..32 {
            let inside = (4..10).contains(&row) && (3..7).contains(&col);
            if !inside {
                assert!(!b.pixel(row, col), "stray pixel at ({}, {})", row, col);
            }
        }
    }
}

#[test]
fn overlapping_glyphs_merge() {
    let mut only_first = Board::new();
    only_first.put_char('1', 2, 2);
    let mut only_second = Board::new();
    only_second.put_char('7', 4, 2);
    let mut both = Board::new();
    both.put_char('1', 2, 2);
    both.put_char('7', 4, 2);
    for row in 0..32 {
        for col in 0..32 {
            assert_eq!(
                both.pixel(row, col),
                only_first.pixel(row, col) || only_second.pixel(row, col),
                "union mismatch at ({}, {})",
                row,
                col
            );
        }
    }
}

#[test]
fn put_string_advances_by_five() {
    let mut via_string = Board::new();
    via_string.put_string("12", 1, 1);
    let mut via_chars = Board::new();
    via_chars.put_char('1', 1, 1);
    via_chars.put_char('2', 6, 1);
    for i in 0..32 {
        assert_eq!(via_string.row_bits(i), via_chars.row_bits(i), "row {}", i);
    }
}

#[test]
fn put_string_line_break_advances_by_seven() {
    let mut via_string = Board::new();
    via_string.put_string("1\n2", 1, 1);
    let mut via_chars = Board::new();
    via_chars.put_char('1', 1, 1);
    via_chars.put_char('2', 1, 8);
    for i in 0..32 {
        assert_eq!(via_string.row_bits(i), via_chars.row_bits(i), "row {}", i);
    }
}

#[test]
fn bounds_of_empty_board() {
    let b = Board::new();
    assert_eq!(b.find_max_used(), (0, 0));
}

#[test]
fn bounds_one_past_last_used_row() {
    // '.' fills a single pixel on the sixth row of its cell: placed at
    // (0, 0) it sets canvas row 5, column 1, and nothing else.
    let mut b = Board::new();
    b.put_char('.', 0, 0);
    assert_eq!(b.row_bits(5), 0b0100u32 << 28);
    for i in 0..32 {
        if i != 5 {
            assert_eq!(b.row_bits(i), 0, "row {}", i);
        }
    }
    assert_eq!(b.find_max_used(), (2, 6));
}

#[test]
fn string_fits_accepts_and_rejects() {
    assert!(string_fits("12", 1, 1));
    assert!(string_fits("1234\n5678", 1, 1));
    assert!(string_fits("", 31, 31));
    // the rightmost placeable column is 28
    assert!(string_fits("1", 28, 1));
    assert!(!string_fits("1", 29, 1));
    // the seventh character starts at column 1 + 6 * 5 = 31, past column 28
    assert!(string_fits("123456", 1, 1));
    assert!(!string_fits("1234567", 1, 1));
    // after a break the second line starts 7 rows down
    assert!(string_fits("1\n2", 1, 19));
    assert!(!string_fits("1\n2", 1, 20));
}
