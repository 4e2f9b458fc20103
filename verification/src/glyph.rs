//! A fixed 4-wide by 6-tall monochrome glyph for the digits and the period,
//! bit-packed into a single `u32`: six 4-bit rows, row 0 in the most
//! significant used nibble, and within a row the most significant bit is the
//! leftmost column.

use vstd::prelude::*;

verus! {

/// The bit pattern of the glyph for `c`: digits `'0'` through `'9'` and `'.'`
/// have a fixed pattern; every other character is the blank glyph (all bits
/// unset).
pub open spec fn spec_glyph_bits(c: char) -> u32 {
    match c {
        '0' => 0b0110_1001_1011_1101_1001_0110u32,
        '1' => 0b0100_1100_0100_0100_0100_1110u32,
        '2' => 0b0110_1001_0001_0110_1000_1111u32,
        '3' => 0b0110_0001_0010_0001_1001_0110u32,
        '4' => 0b0010_0110_1010_1111_0010_0010u32,
        '5' => 0b1111_1000_1110_0001_1001_0110u32,
        '6' => 0b0110_1000_1110_1010_1001_0110u32,
        '7' => 0b1111_0001_0010_0100_0100_0100u32,
        '8' => 0b0110_1001_0110_1001_1001_0110u32,
        '9' => 0b0110_1001_1001_0111_0001_0110u32,
        '.' => 0b0000_0000_0000_0000_0000_0100u32,
        _ => 0u32,
    }
}

/// Row `r` (0 at the top) of a bit-packed glyph: a 4-bit value whose most
/// significant bit is the leftmost column.
pub open spec fn spec_row_of(bits: u32, r: int) -> u32
    recommends
        0 <= r < 6,
{
    (bits >> ((4 * (5 - r)) as u32)) & 0x0fu32
}

/// Whether the pixel at row `r`, column `c` (0 = leftmost) of a bit-packed
/// glyph is set.
pub open spec fn spec_pix_of(bits: u32, r: int, c: int) -> bool
    recommends
        0 <= r < 6,
        0 <= c < 4,
{
    (spec_row_of(bits, r) >> ((3 - c) as u32)) & 1u32 == 1u32
}

/// A 4x6 glyph bit-packed into 24 bits of a `u32`.
#[derive(Copy, Clone, Debug)]
pub struct PixChar4x6(u32);

impl PixChar4x6 {
    /// The packed bit pattern.
    pub closed spec fn bits(self) -> u32 {
        self.0
    }

    /// Looks the character up in the fixed font table; unsupported characters
    /// yield the blank glyph.
    pub fn new(c: char) -> (g: PixChar4x6)
        ensures
            g.bits() == spec_glyph_bits(c),
    {
        PixChar4x6(
            match c {
                '0' => 0b0110_1001_1011_1101_1001_0110u32,
                '1' => 0b0100_1100_0100_0100_0100_1110u32,
                '2' => 0b0110_1001_0001_0110_1000_1111u32,
                '3' => 0b0110_0001_0010_0001_1001_0110u32,
                '4' => 0b0010_0110_1010_1111_0010_0010u32,
                '5' => 0b1111_1000_1110_0001_1001_0110u32,
                '6' => 0b0110_1000_1110_1010_1001_0110u32,
                '7' => 0b1111_0001_0010_0100_0100_0100u32,
                '8' => 0b0110_1001_0110_1001_1001_0110u32,
                '9' => 0b0110_1001_1001_0111_0001_0110u32,
                '.' => 0b0000_0000_0000_0000_0000_0100u32,
                _ => 0u32,
            },
        )
    }

    /// The 4-bit pattern of scanline `row`, most significant bit leftmost.
    pub fn row(self, row: usize) -> (r: u32)
        requires
            row < 6,
        ensures
            r == spec_row_of(self.bits(), row as int),
            r < 16,
    {
        let shift: u32 = (4 * (5 - row)) as u32;
        let r = (self.0 >> shift) & 0x0fu32;
        proof {
            let b = self.0;
            assert((b >> shift) & 0x0fu32 < 16) by (bit_vector);
        }
        r
    }

    /// Whether the cell at `row`, `col` is set, by masking the row pattern.
    pub fn pix(self, row: usize, col: usize) -> (b: bool)
        requires
            row < 6,
            col < 4,
        ensures
            b == spec_pix_of(self.bits(), row as int, col as int),
    {
        let r = self.row(row);
        let sh: u32 = (3 - col) as u32;
        let mask: u32 = 1u32 << sh;
        let b = r & mask == mask;
        proof {
            assert(sh < 4 ==> ((r & (1u32 << sh) == (1u32 << sh)) <==> ((r >> sh) & 1u32
                == 1u32))) by (bit_vector);
        }
        b
    }
}

} // verus!
