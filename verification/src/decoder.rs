//! The interrupt-driven serial protocol decoder.
//!
//! The wire protocol carries 64 pixels of 3 bytes each, row-major, red then
//! green then blue, 192 bytes per frame. The byte `0xFF` is never a pixel
//! value: it resynchronizes the stream by resetting the write cursor to 0.
//! When the cursor reaches exactly 192 the filled buffer is handed to the
//! exchange and the decoder resumes into a freshly allocated buffer,
//! repainted as a visibly patterned gradient so that integration failures
//! show up as a pattern rather than a silently black panel.

use vstd::prelude::*;

use crate::exchange::{publish_model, Exchange, ExchangeModel};
use crate::image::{channel_update, gradient_grid, grid_of_bytes, Color, Image};

verus! {

/// The number of payload bytes in one full frame.
pub const FRAME_BYTES: usize = 192;

/// The resynchronization marker.
pub const SYNC_BYTE: u8 = 0xFF;

/// The spec-level state of a [`Decoder`]: the grid of the buffer being
/// filled and the byte cursor.
pub struct DecoderModel {
    /// The content of the write-target buffer.
    pub grid: Seq<Color>,
    /// The write cursor, in `0..192`.
    pub pos: int,
}

/// Flat channel `i` of a grid: channel `i % 3` of cell `i / 3`, the order of
/// the wire protocol.
pub open spec fn grid_channel(grid: Seq<Color>, i: int) -> u8 {
    grid[i / 3].spec_channel(i % 3)
}

/// The grid with flat channel `pos` overwritten by `b`.
pub open spec fn write_channel(grid: Seq<Color>, pos: int, b: u8) -> Seq<Color> {
    grid.update(pos / 3, channel_update(grid[pos / 3], pos % 3, b))
}

/// One step of the decoder on byte `b`: `0xFF` resets the cursor; any other
/// byte lands in flat channel `pos` and advances the cursor; the byte that
/// completes the frame publishes it and leaves the decoder at cursor 0 on a
/// fresh gradient-painted buffer.
pub open spec fn decode_byte_model(d: DecoderModel, ex: ExchangeModel, b: u8) -> (
    DecoderModel,
    ExchangeModel,
) {
    if b == SYNC_BYTE {
        (DecoderModel { grid: d.grid, pos: 0 }, ex)
    } else if d.pos < FRAME_BYTES {
        let grid2 = write_channel(d.grid, d.pos, b);
        if d.pos + 1 == FRAME_BYTES {
            let (ex2, rx2) = publish_model(ex, grid2);
            (DecoderModel { grid: rx2, pos: 0 }, ex2)
        } else {
            (DecoderModel { grid: grid2, pos: d.pos + 1 }, ex)
        }
    } else {
        (d, ex)
    }
}

/// The decoder folded over a whole byte sequence, first byte first.
pub open spec fn decode_bytes_model(d: DecoderModel, ex: ExchangeModel, bytes: Seq<u8>) -> (
    DecoderModel,
    ExchangeModel,
)
    decreases bytes.len(),
{
    if bytes.len() == 0 {
        (d, ex)
    } else {
        let (d2, ex2) = decode_byte_model(d, ex, bytes[0]);
        decode_bytes_model(d2, ex2, bytes.subrange(1, bytes.len() as int))
    }
}

/// The interrupt-driven parser that turns incoming serial bytes into pixel
/// writes and hands completed frames to the exchange.
///
/// Its view is a [`DecoderModel`].
pub struct Decoder {
    rx: Image,
    pos: usize,
}

impl View for Decoder {
    type V = DecoderModel;

    closed spec fn view(&self) -> DecoderModel {
        DecoderModel { grid: self.rx@, pos: self.pos as int }
    }
}

impl Decoder {
    /// The write-target buffer is a full grid and the cursor stays inside
    /// the frame.
    pub open spec fn wf(&self) -> bool {
        self@.grid.len() == 64 && 0 <= self@.pos < FRAME_BYTES
    }

    /// Start decoding into `rx` at cursor 0.
    pub fn new(rx: Image) -> (d: Decoder)
        requires
            rx.wf(),
        ensures
            d.wf(),
            d@.grid == rx@,
            d@.pos == 0,
    {
        Decoder { rx, pos: 0 }
    }

    /// The current write cursor.
    pub fn cursor(&self) -> (p: usize)
        ensures
            p == self@.pos,
    {
        self.pos
    }

    /// Read one cell of the buffer being filled.
    pub fn peek_cell(&self, row: usize, col: usize) -> (c: Color)
        requires
            self.wf(),
            1 <= row <= 8,
            1 <= col <= 8,
        ensures
            c == self@.grid[(row - 1) * 8 + (col - 1)],
    {
        self.rx.get(row, col)
    }

    /// Handle one received byte, at the highest priority, bounded and free
    /// of blocking: resynchronize on `0xFF`, otherwise store the byte at the
    /// cursor and, on completion of the 192nd byte, hand the frame to the
    /// exchange and resume into a fresh gradient-painted buffer.
    pub fn receive_byte(&mut self, ex: &mut Exchange, b: u8)
        requires
            old(self).wf(),
            old(ex).inv(),
        ensures
            final(self).wf(),
            final(ex).inv(),
            (final(self)@, final(ex)@) == decode_byte_model(old(self)@, old(ex)@, b),
    {
        if b == SYNC_BYTE {
            self.pos = 0;
        } else if self.pos < FRAME_BYTES {
            let col: usize = (self.pos % 24) / 3;
            let row: usize = self.pos / 24;
            let chan: usize = self.pos % 3;
            proof {
                lemma_cursor_index(self.pos as int);
            }
            self.rx.set_channel(row + 1, col + 1, chan, b);
            self.pos = self.pos + 1;
            proof {
                assert(self@.grid == write_channel(old(self)@.grid, old(self)@.pos, b));
            }
            if self.pos == FRAME_BYTES {
                ex.publish(&mut self.rx);
                self.pos = 0;
            }
        }
    }
}

/// Flat channel `i` of a grid whose channels from `start` on have been
/// overwritten by `bytes` in wire order.
pub open spec fn filled_channel(grid: Seq<Color>, bytes: Seq<u8>, start: int, i: int) -> u8 {
    if i >= start {
        bytes[i - start]
    } else {
        grid_channel(grid, i)
    }
}

/// The grid with flat channels `start..192` overwritten by `bytes` in wire
/// order, earlier channels kept.
pub open spec fn filled(grid: Seq<Color>, bytes: Seq<u8>, start: int) -> Seq<Color> {
    Seq::new(
        64,
        |p: int|
            Color {
                r: filled_channel(grid, bytes, start, 3 * p),
                g: filled_channel(grid, bytes, start, 3 * p + 1),
                b: filled_channel(grid, bytes, start, 3 * p + 2),
            },
    )
}

/// A cell is exactly its three flat channels.
proof fn lemma_grid_channel_cell(grid: Seq<Color>, p: int)
    requires
        grid.len() == 64,
        0 <= p < 64,
    ensures
        grid[p].r == grid_channel(grid, 3 * p),
        grid[p].g == grid_channel(grid, 3 * p + 1),
        grid[p].b == grid_channel(grid, 3 * p + 2),
{
    assert(3 * p / 3 == p && 3 * p % 3 == 0) by (nonlinear_arith);
    assert((3 * p + 1) / 3 == p && (3 * p + 1) % 3 == 1) by (nonlinear_arith);
    assert((3 * p + 2) / 3 == p && (3 * p + 2) % 3 == 2) by (nonlinear_arith);
}

/// Writing flat channel `pos` changes that channel alone.
proof fn lemma_write_channel_effect(grid: Seq<Color>, pos: int, b: u8, i: int)
    requires
        grid.len() == 64,
        0 <= pos < 192,
        0 <= i < 192,
    ensures
        write_channel(grid, pos, b).len() == 64,
        grid_channel(write_channel(grid, pos, b), i) == if i == pos {
            b
        } else {
            grid_channel(grid, i)
        },
{
    vstd::arithmetic::div_mod::lemma_fundamental_div_mod(pos, 3);
    vstd::arithmetic::div_mod::lemma_fundamental_div_mod(i, 3);
    assert(0 <= pos / 3 < 64 && 0 <= i / 3 < 64);
    assert(i / 3 == pos / 3 && i % 3 == pos % 3 ==> i == pos);
}

/// Feeding the rest of a frame, none of it the sync byte, completes it:
/// from cursor `192 - bytes.len()` the decoder ends at cursor 0 on the fresh
/// gradient buffer, and the exchange has taken the filled grid as pending.
pub proof fn lemma_decode_run(d: DecoderModel, ex: ExchangeModel, bytes: Seq<u8>)
    requires
        d.grid.len() == 64,
        ex.inv(),
        0 <= d.pos,
        1 <= bytes.len(),
        d.pos + bytes.len() == FRAME_BYTES,
        forall|i: int| 0 <= i < bytes.len() ==> bytes[i] != SYNC_BYTE,
    ensures
        ({
            let (d2, ex2) = decode_bytes_model(d, ex, bytes);
            &&& d2.pos == 0
            &&& d2.grid == gradient_grid(Color { r: 0, g: 0, b: 255 })
            &&& ex2 == publish_model(ex, filled(d.grid, bytes, d.pos)).0
            &&& ex2.pending == Some(filled(d.grid, bytes, d.pos))
            &&& ex2.inv()
        }),
    decreases bytes.len(),
{
    let b0 = bytes[0];
    let grid2 = write_channel(d.grid, d.pos, b0);
    assert forall|i: int| 0 <= i < 192 implies grid_channel(grid2, i) == (if i == d.pos {
        b0
    } else {
        grid_channel(d.grid, i)
    }) by {
        lemma_write_channel_effect(d.grid, d.pos, b0, i);
    }
    lemma_write_channel_effect(d.grid, d.pos, b0, 0);
    let full = filled(d.grid, bytes, d.pos);
    crate::exchange::lemma_publish_preserves_inv(ex, full);
    let step = decode_byte_model(d, ex, b0);
    let tail = bytes.subrange(1, bytes.len() as int);
    assert(decode_bytes_model(d, ex, bytes) == decode_bytes_model(step.0, step.1, tail));
    if bytes.len() == 1 {
        assert forall|p: int| 0 <= p < 64 implies grid2[p] == full[p] by {
            lemma_grid_channel_cell(grid2, p);
        }
        assert(grid2 =~= full);
        assert(tail.len() == 0);
        assert(decode_bytes_model(step.0, step.1, tail) == (step.0, step.1));
        assert(step.0.pos == 0);
        assert(step.0.grid == gradient_grid(Color { r: 0, g: 0, b: 255 }));
        assert(step.1 == publish_model(ex, full).0);
    } else {
        let d2 = DecoderModel { grid: grid2, pos: d.pos + 1 };
        assert(step == (d2, ex));
        lemma_decode_run(d2, ex, tail);
        assert forall|p: int| 0 <= p < 64 implies filled(grid2, tail, d.pos + 1)[p] == full[p] by {
            assert forall|i: int| 3 * p <= i <= 3 * p + 2 implies filled_channel(
                grid2,
                tail,
                d.pos + 1,
                i,
            ) == filled_channel(d.grid, bytes, d.pos, i) by {
                if i >= d.pos + 1 {
                    assert(tail[i - d.pos - 1] == bytes[i - d.pos]);
                } else if i == d.pos {
                    assert(grid_channel(grid2, i) == b0);
                }
            }
        }
        assert(filled(grid2, tail, d.pos + 1) =~= full);
    }
}

/// Decoder correctness: feeding exactly 192 bytes, none of them the sync
/// marker, from cursor 0 yields a completed pending frame whose cells are
/// the bytes in wire order, and a decoder back at cursor 0 on the fresh
/// gradient buffer.
pub proof fn lemma_full_frame_decoded(d: DecoderModel, ex: ExchangeModel, bytes: Seq<u8>)
    requires
        d.grid.len() == 64,
        ex.inv(),
        d.pos == 0,
        bytes.len() == FRAME_BYTES,
        forall|i: int| 0 <= i < bytes.len() ==> bytes[i] != SYNC_BYTE,
    ensures
        ({
            let (d2, ex2) = decode_bytes_model(d, ex, bytes);
            &&& ex2.pending == Some(grid_of_bytes(bytes))
            &&& ex2.inv()
            &&& d2.pos == 0
            &&& d2.grid == gradient_grid(Color { r: 0, g: 0, b: 255 })
        }),
{
    lemma_decode_run(d, ex, bytes);
    assert(filled(d.grid, bytes, 0) =~= grid_of_bytes(bytes));
}

/// Resynchronization: the sync byte, at any cursor position, resets the
/// cursor to 0 and nothing else — no cell already written changes, and the
/// exchange is untouched; subsequent bytes overwrite from pixel `(1, 1)` on.
pub proof fn lemma_resync(d: DecoderModel, ex: ExchangeModel)
    ensures
        decode_byte_model(d, ex, SYNC_BYTE) == (DecoderModel { grid: d.grid, pos: 0 }, ex),
{
}

/// The 1-based grid coordinates addressed by cursor `pos` pick exactly flat
/// channel `pos`: `(pos / 24) * 8 + (pos % 24) / 3` is pixel `pos / 3`, and
/// the channel within the pixel is `pos % 3`.
proof fn lemma_cursor_index(pos: int)
    requires
        0 <= pos < 192,
    ensures
        0 <= pos / 24 < 8,
        0 <= (pos % 24) / 3 < 8,
        0 <= pos % 3 < 3,
        (pos / 24) * 8 + (pos % 24) / 3 == pos / 3,
        (pos % 24) % 3 == pos % 3,
        0 <= pos / 3 < 64,
{
    let q = pos / 24;
    let r = pos % 24;
    vstd::arithmetic::div_mod::lemma_fundamental_div_mod(pos, 24);
    assert(pos == 24 * q + r);
    assert((24 * q + r) / 3 == 8 * q + r / 3) by (nonlinear_arith)
        requires
            0 <= r < 24,
            0 <= q,
    ;
    assert((24 * q + r) % 3 == r % 3) by (nonlinear_arith)
        requires
            0 <= r < 24,
            0 <= q,
    ;
}

} // verus!
