use pixboard::glyph::PixChar4x6;

fn assert_rows(c: char, expected: [u32; 6]) {
    let g = PixChar4x6::new(c);
    for r in 0..6 {
        assert_eq!(g.row(r), expected[r], "glyph {:?} row {}", c, r);
    }
}

#[test]
fn glyph_rows_digits() {
    assert_rows('0', [0b0110, 0b1001, 0b1011, 0b1101, 0b1001, 0b0110]);
    assert_rows('1', [0b0100, 0b1100, 0b0100, 0b0100, 0b0100, 0b1110]);
    assert_rows('2', [0b0110, 0b1001, 0b0001, 0b0110, 0b1000, 0b1111]);
    assert_rows('3', [0b0110, 0b0001, 0b0010, 0b0001, 0b1001, 0b0110]);
    assert_rows('4', [0b0010, 0b0110, 0b1010, 0b1111, 0b0010, 0b0010]);
    assert_rows('5', [0b1111, 0b1000, 0b1110, 0b0001, 0b1001, 0b0110]);
    assert_rows('6', [0b0110, 0b1000, 0b1110, 0b1010, 0b1001, 0b0110]);
    assert_rows('7', [0b1111, 0b0001, 0b0010, 0b0100, 0b0100, 0b0100]);
    assert_rows('8', [0b0110, 0b1001, 0b0110, 0b1001, 0b1001, 0b0110]);
    assert_rows('9', [0b0110, 0b1001, 0b1001, 0b0111, 0b0001, 0b0110]);
    assert_rows('.', [0b0000, 0b0000, 0b0000, 0b0000, 0b0000, 0b0100]);
}

#[test]
fn glyph_unsupported_blank() {
    for c in ['a', 'x', ' ', '\t', '-', '/'] {
        assert_rows(c, [0; 6]);
    }
}

#[test]
fn glyph_pix_matches_row_bits() {
    for c in ['0', '1', '7', '.', 'q'] {
        let g = PixChar4x6::new(c);
        for r in 0..6 {
            for col in 0..4 {
                let bit = (g.row(r) >> (3 - col)) & 1;
                assert_eq!(g.pix(r, col), bit == 1, "glyph {:?} pix({}, {})", c, r, col);
            }
        }
    }
}
