//! The assembled controller: decoder, exchange, scheduler and driver.
//!
//! At startup the pool is grown to its capacity of three buffers; two are
//! allocated at once (the scheduler's current buffer and the decoder's
//! receive buffer) and the pending slot starts empty. In the running system
//! the byte handler preempts the row task and the two meet only inside the
//! exchange's critical section; here the same serialization is carried by
//! exclusive `&mut` access to the one `Controller` value. The unverified rim
//! feeds received bytes in, calls `tick` at each deadline, and replays the
//! drained pin ops onto the hardware.

use vstd::prelude::*;

use crate::decoder::{decode_byte_model, Decoder, DecoderModel};
use crate::exchange::{Exchange, ExchangeModel};
use crate::image::{cell_index, Color};
use crate::matrix::{startup_ops, Matrix, PinOp};
use crate::scheduler::{tick_model, DisplayScheduler, SchedulerModel, ROW_PERIOD_TICKS};

verus! {

/// The spec-level state of the whole controller.
pub struct ControllerModel {
    /// The decoder's buffer and cursor.
    pub dec: DecoderModel,
    /// The pool and the pending slot.
    pub ex: ExchangeModel,
    /// The scheduler's frame, row counter and deadline.
    pub sched: SchedulerModel,
    /// The driver's log of pin ops not yet replayed.
    pub ops: Seq<PinOp>,
}

/// An embedded controller driving the 8x8 matrix from a serial byte stream.
///
/// Its view is a [`ControllerModel`].
pub struct Controller {
    decoder: Decoder,
    exchange: Exchange,
    scheduler: DisplayScheduler,
    matrix: Matrix,
}

impl View for Controller {
    type V = ControllerModel;

    closed spec fn view(&self) -> ControllerModel {
        ControllerModel {
            dec: self.decoder@,
            ex: self.exchange@,
            sched: self.scheduler@,
            ops: self.matrix@,
        }
    }
}

impl Controller {
    /// All components are well formed and the pool accounting holds.
    pub open spec fn wf(&self) -> bool {
        &&& self@.dec.grid.len() == 64
        &&& 0 <= self@.dec.pos < 192
        &&& self@.ex.inv()
        &&& self@.sched.grid.len() == 64
        &&& 1 <= self@.sched.next_row <= 8
    }

    /// Bring the system up: the driver emits its bring-up pulse train, the
    /// pool is grown to capacity, the scheduler takes the current buffer
    /// with row 1 due at `deadline`, and the decoder takes the receive
    /// buffer with its cursor at 0.
    pub fn new(deadline: u64) -> (c: Controller)
        ensures
            c.wf(),
            c@.ex.pending is None,
            c@.dec.pos == 0,
            c@.sched.next_row == 1,
            c@.sched.deadline == deadline,
            c@.ops == startup_ops(),
            forall|j: int|
                0 <= j < 64 ==> (#[trigger] c@.sched.grid[j]) == (Color { r: 0, g: 0, b: 0 }),
            forall|j: int|
                0 <= j < 64 ==> (#[trigger] c@.dec.grid[j]) == (Color { r: 0, g: 0, b: 0 }),
    {
        let matrix = Matrix::new();
        let (exchange, current, receive) = Exchange::new();
        let decoder = Decoder::new(receive);
        let scheduler = DisplayScheduler::new(current, deadline);
        Controller { decoder, exchange, scheduler, matrix }
    }

    /// Handle one received serial byte at the highest priority; only the
    /// decoder and the exchange can change.
    pub fn receive_byte(&mut self, b: u8)
        requires
            old(self).wf(),
        ensures
            final(self).wf(),
            (final(self)@.dec, final(self)@.ex) == decode_byte_model(
                old(self)@.dec,
                old(self)@.ex,
                b,
            ),
            final(self)@.sched == old(self)@.sched,
            final(self)@.ops == old(self)@.ops,
    {
        self.decoder.receive_byte(&mut self.exchange, b);
    }

    /// Run one scheduler tick; only the scheduler, the exchange and the
    /// driver log can change.
    pub fn tick(&mut self)
        requires
            old(self).wf(),
            old(self)@.sched.deadline + ROW_PERIOD_TICKS <= u64::MAX,
        ensures
            final(self).wf(),
            ({
                let (s2, ex2, ops) = tick_model(old(self)@.sched, old(self)@.ex);
                &&& final(self)@.sched == s2
                &&& final(self)@.ex == ex2
                &&& final(self)@.ops == old(self)@.ops + ops
            }),
            final(self)@.dec == old(self)@.dec,
    {
        self.scheduler.tick(&mut self.exchange, &mut self.matrix);
    }

    /// The decoder's write cursor.
    pub fn cursor(&self) -> (p: usize)
        ensures
            p == self@.dec.pos,
    {
        self.decoder.cursor()
    }

    /// Whether a completed frame awaits the next row-1 tick.
    pub fn has_pending(&self) -> (r: bool)
        ensures
            r == (self@.ex.pending is Some),
    {
        self.exchange.has_pending()
    }

    /// Read one cell of the pending frame, if one is installed.
    pub fn pending_cell(&self, row: usize, col: usize) -> (c: Option<Color>)
        requires
            self.wf(),
            1 <= row <= 8,
            1 <= col <= 8,
        ensures
            self@.ex.pending is Some ==> c == Some(
                self@.ex.pending->0[cell_index(row as int, col as int)],
            ),
            self@.ex.pending is None ==> c is None,
    {
        self.exchange.pending_cell(row, col)
    }

    /// Read one cell of the frame currently being streamed.
    pub fn current_cell(&self, row: usize, col: usize) -> (c: Color)
        requires
            self.wf(),
            1 <= row <= 8,
            1 <= col <= 8,
        ensures
            c == self@.sched.grid[cell_index(row as int, col as int)],
    {
        self.scheduler.current_cell(row, col)
    }

    /// The 1-based row the next tick will send.
    pub fn next_row(&self) -> (r: usize)
        ensures
            r == self@.sched.next_row,
    {
        self.scheduler.next_row()
    }

    /// The absolute deadline, in clock ticks, of the next tick.
    pub fn deadline(&self) -> (d: u64)
        ensures
            d == self@.sched.deadline,
    {
        self.scheduler.deadline()
    }

    /// How many buffers are free in the pool right now.
    pub fn free_buffers(&self) -> (n: usize)
        ensures
            n == self@.ex.free.len(),
    {
        self.exchange.free_buffers()
    }

    /// Drain the driver's log of pin ops for replay onto the hardware.
    pub fn take_ops(&mut self) -> (ops: Vec<PinOp>)
        ensures
            ops@ == old(self)@.ops,
            final(self)@.ops == Seq::<PinOp>::empty(),
            final(self)@.dec == old(self)@.dec,
            final(self)@.ex == old(self)@.ex,
            final(self)@.sched == old(self)@.sched,
            final(self).wf() == old(self).wf(),
    {
        self.matrix.take_ops()
    }
}

} // verus!
