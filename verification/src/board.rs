//! A fixed 32x32 monochrome canvas, one bit-packed `u32` row per scanline.
//! Column 0 is the most significant bit of a row. Writes are additive only:
//! every placement ORs glyph bits into the rows, so a pixel once set is never
//! unset by a later write.

use vstd::prelude::*;

use crate::glyph::PixChar4x6;
use crate::glyph::spec_glyph_bits;
use crate::glyph::spec_pix_of;
use crate::glyph::spec_row_of;

verus! {

/// An all-zero canvas, as a sequence of rows.
pub open spec fn spec_empty_rows() -> Seq<u32> {
    Seq::new(32, |i: int| 0u32)
}

/// Whether the pixel at row `r`, column `c` of the canvas is set
/// (column 0 is the most significant bit of the row).
pub open spec fn spec_pixel(rows: Seq<u32>, r: int, c: int) -> bool
    recommends
        0 <= r < rows.len(),
        0 <= c < 32,
{
    (rows[r] >> ((31 - c) as u32)) & 1u32 == 1u32
}

/// The canvas after ORing the glyph of `c` into rows `y..y+6`, with the
/// glyph's leftmost column at canvas column `x`: each glyph row is shifted
/// left by `32 - x - 4` bits so that its 4 columns land at `x..x+4`.
pub open spec fn spec_put_char(rows: Seq<u32>, c: char, x: int, y: int) -> Seq<u32>
    recommends
        rows.len() == 32,
        0 <= x <= 28,
        0 <= y <= 26,
{
    Seq::new(
        32,
        |i: int|
            if y <= i < y + 6 {
                rows[i] | (spec_row_of(spec_glyph_bits(c), i - y) << ((32 - x - 4) as u32))
            } else {
                rows[i]
            },
    )
}

/// The canvas after laying out the characters of `s` from cursor
/// `(cx, cy)`: a line break resets the cursor column to `x0` and advances the
/// row by 7; any other character is placed at the cursor and advances the
/// column by 5.
pub open spec fn spec_put_string(rows: Seq<u32>, s: Seq<char>, x0: int, cx: int, cy: int) -> Seq<
    u32,
>
    decreases s.len(),
{
    if s.len() == 0 {
        rows
    } else if s[0] == '\n' {
        spec_put_string(rows, s.drop_first(), x0, x0, cy + 7)
    } else {
        spec_put_string(spec_put_char(rows, s[0], cx, cy), s.drop_first(), x0, cx + 5, cy)
    }
}

/// Whether every placement that laying out `s` from cursor `(cx, cy)` makes
/// stays inside the canvas: a placed character needs `cx + 4 <= 32` and
/// `cy + 6 <= 32`; a line break only needs the advanced row cursor to stay a
/// machine integer.
pub open spec fn spec_string_fits(s: Seq<char>, x0: int, cx: int, cy: int) -> bool
    decreases s.len(),
{
    if s.len() == 0 {
        true
    } else if s[0] == '\n' {
        cy + 7 <= usize::MAX && spec_string_fits(s.drop_first(), x0, x0, cy + 7)
    } else {
        cx + 4 <= 32 && cy + 6 <= 32 && spec_string_fits(s.drop_first(), x0, cx + 5, cy)
    }
}

/// The bitwise OR of the first `n` rows.
pub open spec fn spec_or_rows(rows: Seq<u32>, n: int) -> u32
    recommends
        0 <= n <= rows.len(),
    decreases n,
{
    if n <= 0 {
        0u32
    } else {
        spec_or_rows(rows, n - 1) | rows[n - 1]
    }
}

/// One plus the index of the last non-zero row among the first `n` rows, or 0
/// if they are all zero.
pub open spec fn spec_max_y(rows: Seq<u32>, n: int) -> int
    recommends
        0 <= n <= rows.len(),
    decreases n,
{
    if n <= 0 {
        0
    } else if rows[n - 1] != 0u32 {
        n
    } else {
        spec_max_y(rows, n - 1)
    }
}

/// The index one past the rightmost used column: 32 minus the trailing zero
/// count of the OR of all rows. On an all-zero canvas the trailing zero count
/// is the full bit width, so the result is 0.
pub open spec fn spec_max_x(rows: Seq<u32>) -> int {
    32 - vstd::std_specs::bits::u32_trailing_zeros(spec_or_rows(rows, 32))
}

/// Checks executably whether laying `s` out from `(x, y)` keeps every
/// placement inside the canvas, so that a caller can test the layout before
/// calling [`Board::put_string`].
pub fn string_fits(s: &str, x: usize, y: usize) -> (b: bool)
    ensures
        b == spec_string_fits(s@, x as int, x as int, y as int),
{
    let n = s.unicode_len();
    let mut cx = x;
    let mut cy = y;
    let mut i: usize = 0;
    proof {
        assert(s@.skip(0) =~= s@);
    }
    while i < n
        invariant
            n == s@.len(),
            i <= n,
            spec_string_fits(s@, x as int, x as int, y as int) == spec_string_fits(
                s@.skip(i as int),
                x as int,
                cx as int,
                cy as int,
            ),
        decreases n - i,
    {
        let ghost rest = s@.skip(i as int);
        proof {
            assert(rest[0] == s@[i as int]);
            assert(rest.drop_first() =~= s@.skip(i as int + 1));
        }
        let c = s.get_char(i);
        if c == '\n' {
            if cy > usize::MAX - 7 {
                return false;
            }
            cy = cy + 7;
            cx = x;
        } else {
            if cx > 28 || cy > 26 {
                return false;
            }
            cx = cx + 5;
        }
        i = i + 1;
    }
    proof {
        assert(s@.skip(n as int) =~= Seq::<char>::empty());
    }
    true
}

/// Law: placing a single glyph at `(x, y)` on an empty canvas and reading
/// the pixel at `(y + r, x + col)` gives exactly the glyph's own pixel at
/// `(r, col)`.
pub proof fn lemma_glyph_on_empty(c: char, x: int, y: int, r: int, col: int)
    requires
        0 <= x <= 28,
        0 <= y <= 26,
        0 <= r < 6,
        0 <= col < 4,
    ensures
        spec_pixel(spec_put_char(spec_empty_rows(), c, x, y), y + r, x + col) == spec_pix_of(
            spec_glyph_bits(c),
            r,
            col,
        ),
{
    let bits = spec_glyph_bits(c);
    let shr: u32 = (4 * (5 - r)) as u32;
    let g = spec_row_of(bits, r);
    assert(g == (bits >> shr) & 0x0fu32);
    assert((bits >> shr) & 0x0fu32 < 16) by (bit_vector);
    let xu = x as u32;
    let cu = col as u32;
    let placed = spec_put_char(spec_empty_rows(), c, x, y);
    assert(placed[y + r] == 0u32 | (g << ((32 - x - 4) as u32)));
    assert((32 - x - 4) as u32 == ((28 - xu) as u32));
    assert(0u32 | (g << ((28 - xu) as u32)) == g << ((28 - xu) as u32)) by (bit_vector);
    assert((31 - (x + col)) as u32 == ((31 - xu - cu) as u32));
    assert((3 - col) as u32 == ((3 - cu) as u32));
    assert(((g << ((28 - xu) as u32)) >> ((31 - xu - cu) as u32)) & 1u32 == (g >> ((3
        - cu) as u32)) & 1u32)
        by (bit_vector)
        requires
            xu <= 28,
            cu < 4,
            g < 16,
    ;
}

/// Law: a placement never erases a pixel; the canvas after `put_char` is the
/// bitwise union of the old canvas and the glyph placed alone on an empty
/// canvas.
pub proof fn lemma_put_char_union(rows: Seq<u32>, c: char, x: int, y: int, r: int, col: int)
    requires
        rows.len() == 32,
        0 <= x <= 28,
        0 <= y <= 26,
        0 <= r < 32,
        0 <= col < 32,
    ensures
        spec_pixel(spec_put_char(rows, c, x, y), r, col) == (spec_pixel(rows, r, col)
            || spec_pixel(spec_put_char(spec_empty_rows(), c, x, y), r, col)),
{
    let sh: u32 = (31 - col) as u32;
    if y <= r < y + 6 {
        let g = spec_row_of(spec_glyph_bits(c), r - y);
        let sh1: u32 = (32 - x - 4) as u32;
        let a = rows[r];
        let b = g << sh1;
        assert(spec_put_char(rows, c, x, y)[r] == a | b);
        assert(spec_put_char(spec_empty_rows(), c, x, y)[r] == 0u32 | b);
        assert(0u32 | b == b) by (bit_vector);
        assert((((a | b) >> sh) & 1u32 == 1u32) <==> (((a >> sh) & 1u32 == 1u32) || ((b >> sh)
            & 1u32 == 1u32))) by (bit_vector);
    } else {
        assert(spec_put_char(rows, c, x, y)[r] == rows[r]);
        assert(spec_put_char(spec_empty_rows(), c, x, y)[r] == 0u32);
        assert((0u32 >> sh) & 1u32 == 0u32) by (bit_vector);
    }
}

/// Law: laying out two ordinary characters (no line break) places the first
/// at `(x, y)` and the second at `(x + 5, y)`.
pub proof fn lemma_put_string_pair(rows: Seq<u32>, c1: char, c2: char, x: int, y: int)
    requires
        c1 != '\n',
        c2 != '\n',
    ensures
        spec_put_string(rows, seq![c1, c2], x, x, y) == spec_put_char(
            spec_put_char(rows, c1, x, y),
            c2,
            x + 5,
            y,
        ),
{
    let s = seq![c1, c2];
    assert(s.drop_first() =~= seq![c2]);
    assert(seq![c2].drop_first() =~= Seq::<char>::empty());
    let rows1 = spec_put_char(rows, c1, x, y);
    assert(spec_put_string(rows, s, x, x, y) == spec_put_string(rows1, seq![c2], x, x + 5, y));
    assert(spec_put_string(rows1, seq![c2], x, x + 5, y) == spec_put_string(
        spec_put_char(rows1, c2, x + 5, y),
        Seq::<char>::empty(),
        x,
        x + 10,
        y,
    ));
}

/// Law: a line break between two ordinary characters places the first at
/// `(x, y)` and the second at `(x, y + 7)`.
pub proof fn lemma_put_string_line_break(rows: Seq<u32>, c1: char, c2: char, x: int, y: int)
    requires
        c1 != '\n',
        c2 != '\n',
    ensures
        spec_put_string(rows, seq![c1, '\n', c2], x, x, y) == spec_put_char(
            spec_put_char(rows, c1, x, y),
            c2,
            x,
            y + 7,
        ),
{
    let s = seq![c1, '\n', c2];
    assert(s.drop_first() =~= seq!['\n', c2]);
    assert(seq!['\n', c2].drop_first() =~= seq![c2]);
    assert(seq![c2].drop_first() =~= Seq::<char>::empty());
    let rows1 = spec_put_char(rows, c1, x, y);
    assert(spec_put_string(rows, s, x, x, y) == spec_put_string(
        rows1,
        seq!['\n', c2],
        x,
        x + 5,
        y,
    ));
    assert(spec_put_string(rows1, seq!['\n', c2], x, x + 5, y) == spec_put_string(
        rows1,
        seq![c2],
        x,
        x,
        y + 7,
    ));
    assert(spec_put_string(rows1, seq![c2], x, x, y + 7) == spec_put_string(
        spec_put_char(rows1, c2, x, y + 7),
        Seq::<char>::empty(),
        x,
        x + 5,
        y + 7,
    ));
}

/// Bit `k` of the OR of the first `n` rows is set exactly when some of
/// those rows has bit `k` set.
proof fn lemma_or_rows_bit(rows: Seq<u32>, n: int, k: u32)
    requires
        0 <= n <= rows.len(),
        k < 32,
    ensures
        ((spec_or_rows(rows, n) >> k) & 1u32 == 1u32) <==> exists|i: int|
            0 <= i < n && ((#[trigger] rows[i] >> k) & 1u32) == 1u32,
    decreases n,
{
    if n > 0 {
        lemma_or_rows_bit(rows, n - 1, k);
        let a = spec_or_rows(rows, n - 1);
        let b = rows[n - 1];
        assert((((a | b) >> k) & 1u32 == 1u32) <==> (((a >> k) & 1u32 == 1u32) || ((b >> k)
            & 1u32 == 1u32))) by (bit_vector);
        if ((spec_or_rows(rows, n) >> k) & 1u32) == 1u32 {
            if ((a >> k) & 1u32) == 1u32 {
                let i = choose|i: int| 0 <= i < n - 1 && ((#[trigger] rows[i] >> k) & 1u32)
                    == 1u32;
                assert(0 <= i < n && ((rows[i] >> k) & 1u32) == 1u32);
            } else {
                assert(0 <= n - 1 < n && ((rows[n - 1] >> k) & 1u32) == 1u32);
            }
        }
        if exists|i: int| 0 <= i < n && ((#[trigger] rows[i] >> k) & 1u32) == 1u32 {
            let i = choose|i: int| 0 <= i < n && ((#[trigger] rows[i] >> k) & 1u32) == 1u32;
            if i < n - 1 {
                assert(exists|j: int| 0 <= j < n - 1 && ((#[trigger] rows[j] >> k) & 1u32)
                    == 1u32);
            }
        }
    } else {
        assert((0u32 >> k) & 1u32 == 0u32) by (bit_vector);
    }
}

/// Law: `spec_max_x` is one past the rightmost used column. Every column at
/// or right of it is clear in every row, and when it is positive, the column
/// just left of it holds a set pixel somewhere.
pub proof fn lemma_max_x_is_column_bound(rows: Seq<u32>)
    requires
        rows.len() == 32,
    ensures
        0 <= spec_max_x(rows) <= 32,
        forall|r: int, c: int|
            0 <= r < 32 && spec_max_x(rows) <= c < 32 ==> !spec_pixel(rows, r, c),
        spec_max_x(rows) > 0 ==> exists|r: int|
            0 <= r < 32 && #[trigger] spec_pixel(rows, r, spec_max_x(rows) - 1),
{
    let v = spec_or_rows(rows, 32);
    vstd::std_specs::bits::axiom_u32_trailing_zeros(v);
    let tz = vstd::std_specs::bits::u32_trailing_zeros(v);
    let mx = spec_max_x(rows);
    assert forall|r: int, c: int| 0 <= r < 32 && mx <= c < 32 implies !spec_pixel(
        rows,
        r,
        c,
    ) by {
        let k = (31 - c) as u32;
        assert(0 <= k < tz);
        assert((v >> k) & 1u32 == 0u32);
        lemma_or_rows_bit(rows, 32, k);
    }
    if mx > 0 {
        assert(tz < 32);
        assert((v >> tz) & 1u32 == 1u32);
        lemma_or_rows_bit(rows, 32, tz);
        let i = choose|i: int| 0 <= i < 32 && ((#[trigger] rows[i] >> tz) & 1u32) == 1u32;
        assert((31 - (mx - 1)) as u32 == tz);
        assert(spec_pixel(rows, i, mx - 1));
    }
}

/// Law: `spec_max_y` is one plus the last used row. Every row at or below it
/// is zero, and when it is positive, the row just above it is non-zero.
pub proof fn lemma_max_y_is_row_bound(rows: Seq<u32>, n: int)
    requires
        0 <= n <= rows.len(),
    ensures
        0 <= spec_max_y(rows, n) <= n,
        forall|i: int| spec_max_y(rows, n) <= i < n ==> rows[i] == 0u32,
        spec_max_y(rows, n) > 0 ==> rows[spec_max_y(rows, n) - 1] != 0u32,
    decreases n,
{
    if n > 0 {
        lemma_max_y_is_row_bound(rows, n - 1);
    }
}

/// A 32x32 bitmap canvas.
pub struct Board {
    rows: Vec<u32>,
}

impl View for Board {
    type V = Seq<u32>;

    closed spec fn view(&self) -> Seq<u32> {
        self.rows@
    }
}

impl Board {
    /// The canvas always holds exactly 32 rows.
    pub open spec fn wf(&self) -> bool {
        self@.len() == 32
    }

    /// A canvas with every pixel unset.
    pub fn new() -> (b: Board)
        ensures
            b.wf(),
            b@ == spec_empty_rows(),
    {
        let mut rows: Vec<u32> = Vec::new();
        let mut i: usize = 0;
        while i < 32
            invariant
                i <= 32,
                rows@.len() == i,
                forall|j: int| 0 <= j < i ==> rows@[j] == 0u32,
            decreases 32 - i,
        {
            rows.push(0u32);
            i = i + 1;
        }
        proof {
            assert(rows@ =~= spec_empty_rows());
        }
        Board { rows }
    }

    /// Read access to the bit-packed row at `index`.
    pub fn row_bits(&self, index: usize) -> (r: u32)
        requires
            self.wf(),
            index < 32,
        ensures
            r == self@[index as int],
    {
        self.rows[index]
    }

    /// Whether the pixel at row `r`, column `c` is set.
    pub fn pixel(&self, r: usize, c: usize) -> (b: bool)
        requires
            self.wf(),
            r < 32,
            c < 32,
        ensures
            b == spec_pixel(self@, r as int, c as int),
    {
        let sh: u32 = (31 - c) as u32;
        (self.rows[r] >> sh) & 1u32 == 1u32
    }

    /// ORs the six rows of the glyph for `c` into rows `y..y+6`, the glyph's
    /// leftmost column landing at canvas column `x`.
    pub fn put_char(&mut self, c: char, x: usize, y: usize)
        requires
            old(self).wf(),
            x + 4 <= 32,
            y + 6 <= 32,
        ensures
            final(self).wf(),
            final(self)@ == spec_put_char(old(self)@, c, x as int, y as int),
    {
        let g = PixChar4x6::new(c);
        let shift: u32 = (32 - x - 4) as u32;
        let mut r: usize = 0;
        while r < 6
            invariant
                self.wf(),
                old(self).wf(),
                g.bits() == spec_glyph_bits(c),
                x + 4 <= 32,
                y + 6 <= 32,
                shift == 32 - x - 4,
                r <= 6,
                forall|i: int|
                    y <= i < y + r ==> self@[i] == (old(self)@[i] | (spec_row_of(
                        spec_glyph_bits(c),
                        i - y,
                    ) << ((32 - x - 4) as u32))),
                forall|i: int| 0 <= i < 32 && !(y <= i < y + r) ==> self@[i] == old(self)@[i],
            decreases 6 - r,
        {
            let bits = self.rows[r + y] | (g.row(r) << shift);
            self.rows.set(r + y, bits);
            r = r + 1;
        }
        proof {
            assert(self@ =~= spec_put_char(old(self)@, c, x as int, y as int));
        }
    }

    /// Lays the characters of `s` out from `(x, y)`: a line break resets the
    /// horizontal cursor to `x` and advances the vertical cursor by 7; any
    /// other character is placed at the cursor via `put_char` and advances
    /// the horizontal cursor by 5.
    pub fn put_string(&mut self, s: &str, x: usize, y: usize)
        requires
            old(self).wf(),
            spec_string_fits(s@, x as int, x as int, y as int),
        ensures
            final(self).wf(),
            final(self)@ == spec_put_string(old(self)@, s@, x as int, x as int, y as int),
    {
        let n = s.unicode_len();
        let mut x_char = x;
        let mut y_char = y;
        let mut i: usize = 0;
        proof {
            assert(s@.skip(0) =~= s@);
        }
        while i < n
            invariant
                self.wf(),
                n == s@.len(),
                i <= n,
                spec_string_fits(s@.skip(i as int), x as int, x_char as int, y_char as int),
                spec_put_string(old(self)@, s@, x as int, x as int, y as int) == spec_put_string(
                    self@,
                    s@.skip(i as int),
                    x as int,
                    x_char as int,
                    y_char as int,
                ),
            decreases n - i,
        {
            let ghost rest = s@.skip(i as int);
            proof {
                assert(rest.len() > 0);
                assert(rest[0] == s@[i as int]);
                assert(rest.drop_first() =~= s@.skip(i as int + 1));
            }
            let c = s.get_char(i);
            if c == '\n' {
                x_char = x;
                y_char = y_char + 7;
            } else {
                self.put_char(c, x_char, y_char);
                x_char = x_char + 5;
            }
            i = i + 1;
        }
        proof {
            assert(s@.skip(n as int) =~= Seq::<char>::empty());
        }
    }

    /// The bounds of the used region: `max_x` is 32 minus the trailing zero
    /// count of the OR of all rows (0 on an empty canvas), and `max_y` is one
    /// plus the index of the last non-zero row (0 on an empty canvas).
    pub fn find_max_used(&self) -> (r: (usize, usize))
        requires
            self.wf(),
        ensures
            r.0 == spec_max_x(self@),
            r.1 == spec_max_y(self@, 32),
            r.0 <= 32,
            r.1 <= 32,
    {
        let mut acc: u32 = 0;
        let mut y: usize = 0;
        let mut i: usize = 0;
        while i < 32
            invariant
                self.wf(),
                i <= 32,
                acc == spec_or_rows(self@, i as int),
                y == spec_max_y(self@, i as int),
                y <= i,
            decreases 32 - i,
        {
            let row = self.rows[i];
            acc = acc | row;
            if row != 0 {
                y = i + 1;
            }
            i = i + 1;
        }
        let tz = acc.trailing_zeros();
        proof {
            vstd::std_specs::bits::axiom_u32_trailing_zeros(acc);
        }
        let x = 32 - tz as usize;
        (x, y)
    }
}

} // verus!
