//! The LED driver chip's bit-banged shift/latch/row-select protocol.
//!
//! The physical boundary offers only two primitives: set one digital line
//! high or low, and wait a number of milliseconds. The driver here is the
//! verified core of that boundary: every operation appends the exact pulse
//! train it requires to an operation log, and the unverified rim replays the
//! log onto the real pins in order. The contracts pin the log down op by op.

use vstd::prelude::*;

use crate::image::{Color, Image};

verus! {

/// One physical output line of the LED driver.
///
/// `RowSelect(i)` is the select line of 0-based row `i` in `0..=7`.
#[derive(Clone, Copy, PartialEq, Eq, Structural, Debug)]
pub enum Line {
    /// Enable/blank line (active low).
    Sb,
    /// Latch line, pulsed low to commit the shift register.
    Lat,
    /// Reset line, raised once at start-up.
    Rst,
    /// Shift clock.
    Sck,
    /// Serial data.
    Sda,
    /// One of the eight row-select lines.
    RowSelect(u8),
}

/// One primitive handed to the hardware boundary.
#[derive(Clone, Copy, PartialEq, Eq, Structural, Debug)]
pub enum PinOp {
    /// Drive a line high (`true`) or low (`false`).
    Drive(Line, bool),
    /// Wait the given number of milliseconds.
    DelayMs(u32),
}

/// Whether bit `k` (0 = least significant) of `byte` is set.
pub open spec fn bit_is_set(byte: u8, k: u8) -> bool
    recommends
        k < 8,
{
    byte & (1u8 << k) != 0
}

/// The three ops that shift out bit `i` of a byte, bits sent most
/// significant first: drive the data line, then pulse the clock.
pub open spec fn bit_ops(byte: u8, i: int) -> Seq<PinOp>
    recommends
        0 <= i < 8,
{
    seq![
        PinOp::Drive(Line::Sda, bit_is_set(byte, (7 - i) as u8)),
        PinOp::Drive(Line::Sck, true),
        PinOp::Drive(Line::Sck, false),
    ]
}

/// The ops that shift out the first `n` bits of a byte, most significant
/// first.
pub open spec fn byte_ops_upto(byte: u8, n: int) -> Seq<PinOp>
    decreases n,
{
    if n <= 0 {
        Seq::empty()
    } else {
        byte_ops_upto(byte, n - 1) + bit_ops(byte, n - 1)
    }
}

/// The 24 ops that shift out one full byte, most significant bit first.
pub open spec fn byte_ops(byte: u8) -> Seq<PinOp> {
    byte_ops_upto(byte, 8)
}

/// The 0-based row-select line for a 1-based row index: rows `1..=8` map to
/// lines `0..=7`; anything else falls back to the last line.
pub open spec fn row_line(row: int) -> u8 {
    if 1 <= row <= 8 {
        (row - 1) as u8
    } else {
        7
    }
}

/// The ops for the reversed-order pixel at position `i` of a row send: the
/// gamma-corrected blue and green bytes, then — only after the fifth pixel —
/// the blanking of the previously lit row, then the red byte.
pub open spec fn pixel_ops(row: int, pixels: Seq<Color>, i: int) -> Seq<PinOp>
    recommends
        0 <= i < 8,
        pixels.len() == 8,
{
    let p = pixels[7 - i].spec_gamma();
    byte_ops(p.b) + byte_ops(p.g) + (if i == 4 {
        seq![PinOp::Drive(Line::RowSelect(row_line((row + 7) % 8)), false)]
    } else {
        Seq::<PinOp>::empty()
    }) + byte_ops(p.r)
}

/// The ops for the first `n` reversed-order pixels of a row send.
pub open spec fn row_pixels_ops_upto(row: int, pixels: Seq<Color>, n: int) -> Seq<PinOp>
    decreases n,
{
    if n <= 0 {
        Seq::empty()
    } else {
        row_pixels_ops_upto(row, pixels, n - 1) + pixel_ops(row, pixels, n - 1)
    }
}

/// The full pulse train of one row send: 192 data bits with the mid-row
/// blanking op, the latch pulse, then the select line of the requested row
/// driven high.
pub open spec fn send_row_ops(row: int, pixels: Seq<Color>) -> Seq<PinOp>
    recommends
        1 <= row <= 8,
        pixels.len() == 8,
{
    row_pixels_ops_upto(row, pixels, 8) + seq![
        PinOp::Drive(Line::Lat, false),
        PinOp::Drive(Line::Lat, true),
        PinOp::Drive(Line::RowSelect(row_line(row)), true),
    ]
}

/// The ops of one bank-initialization bit: data high, clock pulsed.
pub open spec fn bank_bit_ops() -> Seq<PinOp> {
    seq![
        PinOp::Drive(Line::Sda, true),
        PinOp::Drive(Line::Sck, true),
        PinOp::Drive(Line::Sck, false),
    ]
}

/// The first `n` bank-initialization bits.
pub open spec fn bank_bits_upto(n: int) -> Seq<PinOp>
    decreases n,
{
    if n <= 0 {
        Seq::empty()
    } else {
        bank_bits_upto(n - 1) + bank_bit_ops()
    }
}

/// The one-time, data-independent bank bring-up: enable lowered, 144 high
/// bits clocked out, the latch pulsed, the enable raised again.
pub open spec fn init_bank_ops() -> Seq<PinOp> {
    seq![PinOp::Drive(Line::Sb, false)] + bank_bits_upto(144) + seq![
        PinOp::Drive(Line::Lat, false),
        PinOp::Drive(Line::Lat, true),
        PinOp::Drive(Line::Sb, true),
    ]
}

/// The construction-time bring-up: enable and latch high, every other line
/// low, a 100 ms stabilization delay, reset raised, then bank
/// initialization.
pub open spec fn startup_ops() -> Seq<PinOp> {
    seq![
        PinOp::Drive(Line::Sb, true),
        PinOp::Drive(Line::Lat, true),
        PinOp::Drive(Line::Rst, false),
        PinOp::Drive(Line::Sck, false),
        PinOp::Drive(Line::Sda, false),
        PinOp::Drive(Line::RowSelect(0), false),
        PinOp::Drive(Line::RowSelect(1), false),
        PinOp::Drive(Line::RowSelect(2), false),
        PinOp::Drive(Line::RowSelect(3), false),
        PinOp::Drive(Line::RowSelect(4), false),
        PinOp::Drive(Line::RowSelect(5), false),
        PinOp::Drive(Line::RowSelect(6), false),
        PinOp::Drive(Line::RowSelect(7), false),
        PinOp::DelayMs(100),
        PinOp::Drive(Line::Rst, true),
    ] + init_bank_ops()
}

/// The pulse trains of all eight rows of an image, row 1 first.
pub open spec fn display_ops_upto(grid: Seq<Color>, n: int) -> Seq<PinOp>
    decreases n,
{
    if n <= 0 {
        Seq::empty()
    } else {
        display_ops_upto(grid, n - 1) + send_row_ops(n, grid.subrange((n - 1) * 8, (n - 1) * 8 + 8))
    }
}

/// The driver of the LED matrix.
///
/// Its view is the log of primitive operations emitted so far, oldest first.
pub struct Matrix {
    ops: Vec<PinOp>,
}

impl View for Matrix {
    type V = Seq<PinOp>;

    closed spec fn view(&self) -> Seq<PinOp> {
        self.ops@
    }
}

impl Matrix {
    /// Construct the driver and emit the full bring-up sequence: enable and
    /// latch high, all other lines low, a 100 ms stabilization delay, the
    /// reset line raised, then bank initialization.
    pub fn new() -> (m: Matrix)
        ensures
            m@ == startup_ops(),
    {
        let mut m = Matrix { ops: Vec::new() };
        m.ops.push(PinOp::Drive(Line::Sb, true));
        m.ops.push(PinOp::Drive(Line::Lat, true));
        m.ops.push(PinOp::Drive(Line::Rst, false));
        m.ops.push(PinOp::Drive(Line::Sck, false));
        m.ops.push(PinOp::Drive(Line::Sda, false));
        let mut i: u8 = 0;
        while i < 8
            invariant
                i <= 8,
                m.ops@.len() == 5 + i,
                forall|j: int| 0 <= j < 5 ==> m.ops@[j] == startup_ops()[j],
                forall|j: int|
                    5 <= j < 5 + i ==> m.ops@[j] == PinOp::Drive(
                        Line::RowSelect((j - 5) as u8),
                        false,
                    ),
            decreases 8 - i,
        {
            m.ops.push(PinOp::Drive(Line::RowSelect(i), false));
            i = i + 1;
        }
        m.ops.push(PinOp::DelayMs(100));
        m.ops.push(PinOp::Drive(Line::Rst, true));
        proof {
            assert(m.ops@ =~= startup_ops().subrange(0, 15));
        }
        m.init_bank0();
        proof {
            assert(startup_ops().subrange(0, 15) + init_bank_ops() =~= startup_ops());
        }
        m
    }

    /// Drain the log of operations emitted so far; the caller replays them
    /// onto the physical lines in order.
    pub fn take_ops(&mut self) -> (ops: Vec<PinOp>)
        ensures
            ops@ == old(self)@,
            final(self)@ == Seq::<PinOp>::empty(),
    {
        let mut taken: Vec<PinOp> = Vec::new();
        core::mem::swap(&mut taken, &mut self.ops);
        taken
    }

    /// Emit a brief high pulse of the shift clock.
    fn pulse_sck(&mut self)
        ensures
            final(self)@ == old(self)@ + seq![
                PinOp::Drive(Line::Sck, true),
                PinOp::Drive(Line::Sck, false),
            ],
    {
        self.ops.push(PinOp::Drive(Line::Sck, true));
        self.ops.push(PinOp::Drive(Line::Sck, false));
    }

    /// Emit a brief low pulse of the latch line.
    fn pulse_lat(&mut self)
        ensures
            final(self)@ == old(self)@ + seq![
                PinOp::Drive(Line::Lat, false),
                PinOp::Drive(Line::Lat, true),
            ],
    {
        self.ops.push(PinOp::Drive(Line::Lat, false));
        self.ops.push(PinOp::Drive(Line::Lat, true));
    }

    /// Emit the op that drives the select line of 1-based `row` to `state`;
    /// an index outside `1..=8` falls back to the last line.
    fn row(&mut self, row: usize, state: bool)
        ensures
            final(self)@ == old(self)@ + seq![
                PinOp::Drive(Line::RowSelect(row_line(row as int)), state),
            ],
    {
        let line: u8 = if 1 <= row && row <= 8 {
            (row - 1) as u8
        } else {
            7
        };
        self.ops.push(PinOp::Drive(Line::RowSelect(line), state));
    }

    /// Emit one byte on the data line, most significant bit first, pulsing
    /// the clock after each bit.
    fn send_byte(&mut self, byte: u8)
        ensures
            final(self)@ == old(self)@ + byte_ops(byte),
    {
        let mut i: usize = 0;
        while i < 8
            invariant
                i <= 8,
                self@ == old(self)@ + byte_ops_upto(byte, i as int),
            decreases 8 - i,
        {
            let k: u8 = (7 - i) as u8;
            let bit: bool = byte & (1u8 << k) != 0;
            self.ops.push(PinOp::Drive(Line::Sda, bit));
            self.pulse_sck();
            proof {
                assert(self@ =~= old(self)@ + byte_ops_upto(byte, i + 1));
            }
            i = i + 1;
        }
    }

    /// Emit one full row: the eight pixels in reverse column order, each
    /// gamma-corrected and shifted out blue, green, red, most significant
    /// bit first; after the fifth pixel the previously lit row is blanked;
    /// then the latch is pulsed and the requested row's select line raised.
    pub fn send_row(&mut self, row: usize, pixels: &[Color])
        requires
            1 <= row <= 8,
            pixels@.len() == 8,
        ensures
            final(self)@ == old(self)@ + send_row_ops(row as int, pixels@),
    {
        let mut i: usize = 0;
        while i < 8
            invariant
                i <= 8,
                1 <= row <= 8,
                pixels@.len() == 8,
                self@ == old(self)@ + row_pixels_ops_upto(row as int, pixels@, i as int),
            decreases 8 - i,
        {
            let pixel = vstd::slice::slice_index_get(pixels, 7 - i).gamma_correct();
            self.send_byte(pixel.b);
            self.send_byte(pixel.g);
            if i == 4 {
                self.row((row + 7) % 8, false);
            }
            self.send_byte(pixel.r);
            proof {
                assert(self@ =~= old(self)@ + row_pixels_ops_upto(
                    row as int,
                    pixels@,
                    i + 1,
                ));
            }
            i = i + 1;
        }
        self.pulse_lat();
        self.row(row, true);
        proof {
            assert(self@ =~= old(self)@ + send_row_ops(row as int, pixels@));
        }
    }

    /// Emit the one-time bank bring-up: enable lowered, 144 high bits
    /// clocked out, the latch pulsed, the enable raised again.
    fn init_bank0(&mut self)
        ensures
            final(self)@ == old(self)@ + init_bank_ops(),
    {
        self.ops.push(PinOp::Drive(Line::Sb, false));
        let mut i: usize = 0;
        while i < 144
            invariant
                i <= 144,
                self@ == old(self)@ + seq![PinOp::Drive(Line::Sb, false)] + bank_bits_upto(i as int),
            decreases 144 - i,
        {
            self.ops.push(PinOp::Drive(Line::Sda, true));
            self.pulse_sck();
            proof {
                assert(self@ =~= old(self)@ + seq![PinOp::Drive(Line::Sb, false)] + bank_bits_upto(
                    i + 1,
                ));
            }
            i = i + 1;
        }
        self.pulse_lat();
        self.ops.push(PinOp::Drive(Line::Sb, true));
        proof {
            assert(self@ =~= old(self)@ + init_bank_ops());
        }
    }

    /// Emit all eight rows of an image in order, for diagnostics; production
    /// display instead paces one row per scheduler tick.
    pub fn display_image(&mut self, image: &Image)
        requires
            image.wf(),
        ensures
            final(self)@ == old(self)@ + display_ops_upto(image@, 8),
    {
        let mut n: usize = 1;
        while n <= 8
            invariant
                1 <= n <= 9,
                image.wf(),
                self@ == old(self)@ + display_ops_upto(image@, n - 1),
            decreases 9 - n,
        {
            self.send_row(n, image.row(n));
            proof {
                assert(self@ =~= old(self)@ + display_ops_upto(image@, n as int));
            }
            n = n + 1;
        }
    }
}

} // verus!
