//! Colors and the fixed 8x8 frame buffer.
//!
//! An [`Image`] is a row-major grid of 64 [`Color`] cells addressed with
//! 1-based `(row, col)` coordinates in `1..=8`. It offers an exact,
//! bidirectional 192-byte flat view (64 cells, three channels each, row-major,
//! red then green then blue) used for bulk transfer by the protocol decoder.

use vstd::prelude::*;

use crate::gamma::{gamma_correct, gamma_value};

verus! {

/// One pixel: three independent 8-bit channels.
#[derive(Clone, Copy, PartialEq, Eq, Structural, Debug)]
pub struct Color {
    pub r: u8,
    pub g: u8,
    pub b: u8,
}

/// Nearest integer to `a / d` for `a >= 0, d > 0`, ties rounded up.
pub open spec fn round_div(a: int, d: int) -> int {
    (2 * a + d) / (2 * d)
}

/// One channel scaled by the factor `num / den`, clamped to the channel range
/// and rounded to the nearest integer.
pub open spec fn scaled_channel(x: u8, num: u32, den: u32) -> u8 {
    let v = round_div((x as int) * (num as int), den as int);
    if v > 255 {
        255u8
    } else {
        v as u8
    }
}

impl Color {
    /// The color read back in spec code, channel by channel: 0 is red,
    /// 1 is green, anything else blue.
    pub open spec fn spec_channel(self, c: int) -> u8 {
        if c == 0 {
            self.r
        } else if c == 1 {
            self.g
        } else {
            self.b
        }
    }

    /// The color with the gamma curve applied to every channel.
    pub open spec fn spec_gamma(self) -> Color {
        Color { r: gamma_value(self.r), g: gamma_value(self.g), b: gamma_value(self.b) }
    }

    /// Build a color from its three channels.
    pub fn new(r: u8, g: u8, b: u8) -> (c: Color)
        ensures
            c == (Color { r, g, b }),
    {
        Color { r, g, b }
    }

    /// Apply gamma correction to each channel.
    pub fn gamma_correct(&self) -> (c: Color)
        ensures
            c == self.spec_gamma(),
    {
        Color { r: gamma_correct(self.r), g: gamma_correct(self.g), b: gamma_correct(self.b) }
    }

    /// Scale every channel by the non-negative rational factor `num / den`,
    /// clamping to the channel range and rounding to the nearest integer.
    /// Scaling by `den / num` with the operands swapped divides instead.
    pub fn scale(self, num: u32, den: u32) -> (c: Color)
        requires
            den > 0,
        ensures
            c.r == scaled_channel(self.r, num, den),
            c.g == scaled_channel(self.g, num, den),
            c.b == scaled_channel(self.b, num, den),
    {
        Color {
            r: scale_channel(self.r, num, den),
            g: scale_channel(self.g, num, den),
            b: scale_channel(self.b, num, den),
        }
    }
}

/// Scale one channel by `num / den`, clamping and rounding to nearest.
fn scale_channel(x: u8, num: u32, den: u32) -> (v: u8)
    requires
        den > 0,
    ensures
        v == scaled_channel(x, num, den),
{
    proof {
        assert((x as int) * (num as int) <= 255 * (u32::MAX as int)) by (nonlinear_arith)
            requires
                x <= 255,
                num <= u32::MAX,
        ;
    }
    let a: u64 = (x as u64) * (num as u64);
    let rounded: u64 = (2 * a + den as u64) / (2 * den as u64);
    if rounded > 255 {
        255
    } else {
        rounded as u8
    }
}

/// A fixed 64-cell row-major grid of colors.
pub struct Image {
    cells: Vec<Color>,
}

impl View for Image {
    type V = Seq<Color>;

    closed spec fn view(&self) -> Seq<Color> {
        self.cells@
    }
}

/// The 0-based flat index of 1-based grid coordinates.
pub open spec fn cell_index(row: int, col: int) -> int {
    (row - 1) * 8 + (col - 1)
}

/// The grid described by 192 flat bytes: cell `p` is built from bytes
/// `3p, 3p+1, 3p+2`, in red, green, blue order.
pub open spec fn grid_of_bytes(bytes: Seq<u8>) -> Seq<Color> {
    Seq::new(64, |p: int| Color { r: bytes[3 * p], g: bytes[3 * p + 1], b: bytes[3 * p + 2] })
}

/// The 192 flat bytes of a 64-cell grid: byte `i` is channel `i % 3` of cell
/// `i / 3`, in red, green, blue order.
pub open spec fn bytes_of_grid(grid: Seq<Color>) -> Seq<u8> {
    Seq::new(192, |i: int| grid[i / 3].spec_channel(i % 3))
}

/// The channel value of the diagnostic gradient at 1-based `(row, col)`:
/// the base channel divided by `1 + row^2 + col`, truncated.
pub open spec fn gradient_channel(base: u8, row: int, col: int) -> u8 {
    ((base as int) / (1 + row * row + col)) as u8
}

/// The diagnostic gradient cell at 1-based `(row, col)`.
pub open spec fn gradient_cell(color: Color, row: int, col: int) -> Color {
    Color {
        r: gradient_channel(color.r, row, col),
        g: gradient_channel(color.g, row, col),
        b: gradient_channel(color.b, row, col),
    }
}

/// The full 64-cell grid of the diagnostic gradient built from `color`.
pub open spec fn gradient_grid(color: Color) -> Seq<Color> {
    Seq::new(64, |p: int| gradient_cell(color, p / 8 + 1, p % 8 + 1))
}

impl Image {
    /// A well-formed image always holds exactly 64 cells.
    pub open spec fn wf(&self) -> bool {
        self@.len() == 64
    }

    /// The cell at 1-based `(row, col)`.
    pub open spec fn spec_cell(&self, row: int, col: int) -> Color {
        self@[cell_index(row, col)]
    }

    /// An image with every cell set to `color`.
    pub fn new_solid(color: Color) -> (img: Image)
        ensures
            img.wf(),
            forall|i: int| 0 <= i < 64 ==> img@[i] == color,
    {
        let mut cells: Vec<Color> = Vec::new();
        let mut i: usize = 0;
        while i < 64
            invariant
                i <= 64,
                cells@.len() == i,
                forall|j: int| 0 <= j < i ==> cells@[j] == color,
            decreases 64 - i,
        {
            cells.push(color);
            i = i + 1;
        }
        Image { cells }
    }

    /// Read the cell at 1-based `(row, col)`.
    pub fn get(&self, row: usize, col: usize) -> (c: Color)
        requires
            self.wf(),
            1 <= row <= 8,
            1 <= col <= 8,
        ensures
            c == self.spec_cell(row as int, col as int),
    {
        self.cells[(row - 1) * 8 + (col - 1)]
    }

    /// Replace the cell at 1-based `(row, col)`.
    pub fn set(&mut self, row: usize, col: usize, color: Color)
        requires
            old(self).wf(),
            1 <= row <= 8,
            1 <= col <= 8,
        ensures
            final(self).wf(),
            final(self)@ == old(self)@.update(cell_index(row as int, col as int), color),
    {
        self.cells[(row - 1) * 8 + (col - 1)] = color;
    }

    /// Overwrite one channel of the cell at 1-based `(row, col)`:
    /// channel 0 is red, 1 green, 2 blue.
    pub fn set_channel(&mut self, row: usize, col: usize, chan: usize, value: u8)
        requires
            old(self).wf(),
            1 <= row <= 8,
            1 <= col <= 8,
            chan < 3,
        ensures
            final(self).wf(),
            final(self)@ == old(self)@.update(
                cell_index(row as int, col as int),
                channel_update(old(self).spec_cell(row as int, col as int), chan as int, value),
            ),
    {
        let idx: usize = (row - 1) * 8 + (col - 1);
        let cell = &mut self.cells[idx];
        if chan == 0 {
            cell.r = value;
        } else if chan == 1 {
            cell.g = value;
        } else {
            cell.b = value;
        }
    }

    /// The 8 contiguous colors of 1-based row `n`, in column order.
    pub fn row(&self, n: usize) -> (r: &[Color])
        requires
            self.wf(),
            1 <= n <= 8,
        ensures
            r@.len() == 8,
            r@ == self@.subrange((n - 1) * 8, (n - 1) * 8 + 8),
            forall|c: int| 1 <= c <= 8 ==> r@[c - 1] == self.spec_cell(n as int, c),
    {
        let start: usize = (n - 1) * 8;
        let r = vstd::slice::slice_subrange(self.cells.as_slice(), start, start + 8);
        assert forall|c: int| 1 <= c <= 8 implies r@[c - 1] == self.spec_cell(n as int, c) by {
            assert(r@[c - 1] == self@[(n - 1) * 8 + (c - 1)]);
        }
        r
    }

    /// The diagnostic gradient: every cell takes the base color divided by
    /// `1 + row^2 + col`, so cell `(1, 1)` is the brightest and intensity
    /// never increases as `row^2 + col` grows.
    pub fn gradient(color: Color) -> (img: Image)
        ensures
            img.wf(),
            img@ == gradient_grid(color),
            forall|row: int, col: int|
                1 <= row <= 8 && 1 <= col <= 8 ==> img.spec_cell(row, col) == gradient_cell(
                    color,
                    row,
                    col,
                ),
    {
        let mut img = Image::new_solid(Color { r: 0, g: 0, b: 0 });
        img.paint_gradient(color);
        img
    }

    /// Repaint every cell in place with the diagnostic gradient built from
    /// `color`; used to give a freshly allocated pool buffer a non-blank,
    /// visibly patterned content.
    pub fn paint_gradient(&mut self, color: Color)
        requires
            old(self).wf(),
        ensures
            final(self).wf(),
            final(self)@ == gradient_grid(color),
            forall|row: int, col: int|
                1 <= row <= 8 && 1 <= col <= 8 ==> final(self).spec_cell(row, col)
                    == gradient_cell(color, row, col),
    {
        let mut row: usize = 1;
        while row <= 8
            invariant
                1 <= row <= 9,
                self.wf(),
                forall|r: int, c: int|
                    1 <= r < row && 1 <= c <= 8 ==> self.spec_cell(r, c) == gradient_cell(
                        color,
                        r,
                        c,
                    ),
            decreases 9 - row,
        {
            let mut col: usize = 1;
            while col <= 8
                invariant
                    1 <= row <= 8,
                    1 <= col <= 9,
                    self.wf(),
                    forall|r: int, c: int|
                        1 <= r < row && 1 <= c <= 8 ==> self.spec_cell(r, c) == gradient_cell(
                            color,
                            r,
                            c,
                        ),
                    forall|c: int|
                        1 <= c < col ==> self.spec_cell(row as int, c) == gradient_cell(
                            color,
                            row as int,
                            c,
                        ),
                decreases 9 - col,
            {
                proof {
                    assert(row * row <= 64) by (nonlinear_arith)
                        requires
                            row <= 8,
                    ;
                }
                let div: u32 = 1 + (row * row + col) as u32;
                let cell = Color {
                    r: ((color.r as u32) / div) as u8,
                    g: ((color.g as u32) / div) as u8,
                    b: ((color.b as u32) / div) as u8,
                };
                self.set(row, col, cell);
                assert(self.spec_cell(row as int, col as int) == gradient_cell(
                    color,
                    row as int,
                    col as int,
                ));
                col = col + 1;
            }
            row = row + 1;
        }
        proof {
            assert(self@ =~= gradient_grid(color));
        }
    }

    /// The exact 192-byte flat view of the grid, row-major, red then green
    /// then blue within each cell.
    pub fn to_bytes(&self) -> (bytes: Vec<u8>)
        requires
            self.wf(),
        ensures
            bytes@ == bytes_of_grid(self@),
    {
        let mut bytes: Vec<u8> = Vec::new();
        let mut p: usize = 0;
        while p < 64
            invariant
                p <= 64,
                self.wf(),
                bytes@.len() == 3 * p,
                forall|i: int|
                    0 <= i < 3 * p ==> bytes@[i] == self@[i / 3].spec_channel(i % 3),
            decreases 64 - p,
        {
            let c = self.cells[p];
            bytes.push(c.r);
            bytes.push(c.g);
            bytes.push(c.b);
            proof {
                assert forall|i: int| 0 <= i < 3 * (p + 1) implies bytes@[i] == self@[i / 3]
                    .spec_channel(i % 3) by {
                    if i >= 3 * p {
                        assert(i / 3 == p as int) by (nonlinear_arith)
                            requires
                                3 * p <= i < 3 * (p + 1),
                        ;
                        assert(i % 3 == i - 3 * (p as int)) by (nonlinear_arith)
                            requires
                                3 * p <= i < 3 * (p + 1),
                        ;
                    }
                }
            }
            p = p + 1;
        }
        proof {
            assert(bytes@ =~= bytes_of_grid(self@));
        }
        bytes
    }

    /// Rebuild a grid from its exact 192-byte flat view.
    pub fn from_bytes(bytes: &[u8]) -> (img: Image)
        requires
            bytes@.len() == 192,
        ensures
            img.wf(),
            img@ == grid_of_bytes(bytes@),
    {
        let mut cells: Vec<Color> = Vec::new();
        let mut p: usize = 0;
        while p < 64
            invariant
                p <= 64,
                bytes@.len() == 192,
                cells@.len() == p,
                forall|q: int|
                    0 <= q < p ==> cells@[q] == (Color {
                        r: bytes@[3 * q],
                        g: bytes@[3 * q + 1],
                        b: bytes@[3 * q + 2],
                    }),
            decreases 64 - p,
        {
            let c = Color {
                r: *vstd::slice::slice_index_get(bytes, 3 * p),
                g: *vstd::slice::slice_index_get(bytes, 3 * p + 1),
                b: *vstd::slice::slice_index_get(bytes, 3 * p + 2),
            };
            cells.push(c);
            p = p + 1;
        }
        let img = Image { cells };
        proof {
            assert(img@ =~= grid_of_bytes(bytes@));
        }
        img
    }
}

/// The color `c` with channel `chan` replaced by `value`: channel 0 is red,
/// 1 green, anything else blue.
pub open spec fn channel_update(c: Color, chan: int, value: u8) -> Color {
    if chan == 0 {
        Color { r: value, g: c.g, b: c.b }
    } else if chan == 1 {
        Color { r: c.r, g: value, b: c.b }
    } else {
        Color { r: c.r, g: c.g, b: value }
    }
}

/// Gradient intensity is monotonically non-increasing as `row^2 + col`
/// grows: a cell whose `row^2 + col` is no larger is at least as bright,
/// channel by channel.
pub proof fn lemma_gradient_monotonic(color: Color, r1: int, c1: int, r2: int, c2: int)
    requires
        1 <= r1 <= 8,
        1 <= c1 <= 8,
        1 <= r2 <= 8,
        1 <= c2 <= 8,
        r1 * r1 + c1 <= r2 * r2 + c2,
    ensures
        gradient_cell(color, r1, c1).r >= gradient_cell(color, r2, c2).r,
        gradient_cell(color, r1, c1).g >= gradient_cell(color, r2, c2).g,
        gradient_cell(color, r1, c1).b >= gradient_cell(color, r2, c2).b,
{
    lemma_gradient_channel_monotonic(color.r, r1, c1, r2, c2);
    lemma_gradient_channel_monotonic(color.g, r1, c1, r2, c2);
    lemma_gradient_channel_monotonic(color.b, r1, c1, r2, c2);
}

/// One channel of [`lemma_gradient_monotonic`].
proof fn lemma_gradient_channel_monotonic(base: u8, r1: int, c1: int, r2: int, c2: int)
    requires
        1 <= r1 <= 8,
        1 <= c1 <= 8,
        1 <= r2 <= 8,
        1 <= c2 <= 8,
        r1 * r1 + c1 <= r2 * r2 + c2,
    ensures
        gradient_channel(base, r1, c1) >= gradient_channel(base, r2, c2),
{
    let d1 = 1 + r1 * r1 + c1;
    let d2 = 1 + r2 * r2 + c2;
    assert(1 <= r1 * r1 && r1 * r1 <= 64) by (nonlinear_arith)
        requires
            1 <= r1 <= 8,
    ;
    assert(1 <= r2 * r2 && r2 * r2 <= 64) by (nonlinear_arith)
        requires
            1 <= r2 <= 8,
    ;
    vstd::arithmetic::div_mod::lemma_div_is_ordered_by_denominator(base as int, d1, d2);
    vstd::arithmetic::div_mod::lemma_div_pos_is_pos(base as int, d1);
    vstd::arithmetic::div_mod::lemma_div_pos_is_pos(base as int, d2);
    vstd::arithmetic::div_mod::lemma_div_nonincreasing(base as int, d1);
    vstd::arithmetic::div_mod::lemma_div_nonincreasing(base as int, d2);
}

/// Cell `(1, 1)` of a gradient is its brightest cell, channel by channel.
pub proof fn lemma_gradient_brightest(color: Color, row: int, col: int)
    requires
        1 <= row <= 8,
        1 <= col <= 8,
    ensures
        gradient_cell(color, 1, 1).r >= gradient_cell(color, row, col).r,
        gradient_cell(color, 1, 1).g >= gradient_cell(color, row, col).g,
        gradient_cell(color, 1, 1).b >= gradient_cell(color, row, col).b,
{
    assert(1 * 1 + 1 <= row * row + col) by (nonlinear_arith)
        requires
            1 <= row && 1 <= col,
    ;
    lemma_gradient_monotonic(color, 1, 1, row, col);
}

/// Serializing a 64-cell grid and deserializing the bytes reproduces the
/// identical per-cell colors.
pub proof fn lemma_grid_bytes_round_trip(grid: Seq<Color>)
    requires
        grid.len() == 64,
    ensures
        grid_of_bytes(bytes_of_grid(grid)) == grid,
{
    let bytes = bytes_of_grid(grid);
    assert forall|p: int| 0 <= p < 64 implies grid_of_bytes(bytes)[p] == grid[p] by {
        assert(bytes[3 * p] == grid[3 * p / 3].spec_channel(3 * p % 3));
        assert(bytes[3 * p + 1] == grid[(3 * p + 1) / 3].spec_channel((3 * p + 1) % 3));
        assert(bytes[3 * p + 2] == grid[(3 * p + 2) / 3].spec_channel((3 * p + 2) % 3));
        assert(3 * p / 3 == p && 3 * p % 3 == 0) by (nonlinear_arith);
        assert((3 * p + 1) / 3 == p && (3 * p + 1) % 3 == 1) by (nonlinear_arith);
        assert((3 * p + 2) / 3 == p && (3 * p + 2) % 3 == 2) by (nonlinear_arith);
    }
    assert(grid_of_bytes(bytes) =~= grid);
}

/// Deserializing any 192 bytes into a grid and serializing it again gives
/// back the identical bytes.
pub proof fn lemma_bytes_grid_round_trip(bytes: Seq<u8>)
    requires
        bytes.len() == 192,
    ensures
        bytes_of_grid(grid_of_bytes(bytes)) == bytes,
{
    let grid = grid_of_bytes(bytes);
    assert forall|i: int| 0 <= i < 192 implies bytes_of_grid(grid)[i] == bytes[i] by {
        let p = i / 3;
        let c = i % 3;
        vstd::arithmetic::div_mod::lemma_fundamental_div_mod(i, 3);
        assert(0 <= p < 64) by (nonlinear_arith)
            requires
                0 <= i < 192,
                p == i / 3,
        ;
        assert(grid[p] == (Color {
            r: bytes[3 * p],
            g: bytes[3 * p + 1],
            b: bytes[3 * p + 2],
        }));
        assert(bytes_of_grid(grid)[i] == grid[p].spec_channel(c));
    }
    assert(bytes_of_grid(grid) =~= bytes);
}

impl Default for Image {
    /// An all-black image.
    fn default() -> (img: Image)
        ensures
            img.wf(),
            forall|i: int| 0 <= i < 64 ==> img@[i] == (Color { r: 0, g: 0, b: 0 }),
    {
        Image::new_solid(Color { r: 0, g: 0, b: 0 })
    }
}

} // verus!
