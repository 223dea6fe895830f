//! The periodic row-display task.
//!
//! Each tick sends one row of the current frame to the driver; at every
//! row-1 tick the pending frame, if any, is swapped in first, so a frame is
//! never partially displayed. The next deadline is the previous absolute
//! deadline plus a fixed interval — never "now" plus the interval — so late
//! ticks cannot accumulate drift.

use vstd::prelude::*;

use crate::exchange::{swap_model, Exchange, ExchangeModel};
use crate::image::{Color, Image};
use crate::matrix::{send_row_ops, Matrix, PinOp};

verus! {

/// The timer frequency the deadlines are counted in, in ticks per second.
pub const CLOCK_HZ: u64 = 80_000_000;

/// Full frames per second.
pub const TARGET_FPS: u64 = 60;

/// Ticks between two row deadlines: one second divided by eight rows at the
/// target frame rate.
pub const ROW_PERIOD_TICKS: u64 = CLOCK_HZ / (8 * TARGET_FPS);

/// The spec-level state of a [`DisplayScheduler`].
pub struct SchedulerModel {
    /// The content of the frame being streamed to the driver.
    pub grid: Seq<Color>,
    /// The 1-based row the next tick will send.
    pub next_row: int,
    /// The absolute deadline, in clock ticks, the last tick re-armed.
    pub deadline: int,
}

/// The eight colors of 1-based row `n` of a grid, in column order.
pub open spec fn row_of(grid: Seq<Color>, n: int) -> Seq<Color> {
    grid.subrange((n - 1) * 8, (n - 1) * 8 + 8)
}

/// One scheduler tick: at a row-1 tick the pending frame is swapped in
/// first; the (possibly new) current row `next_row` is sent; the row
/// counter advances, wrapping 8 to 1; and the deadline moves forward by
/// exactly one row period. Returns the new scheduler state, the new exchange
/// state, and the ops appended to the driver log.
pub open spec fn tick_model(s: SchedulerModel, ex: ExchangeModel) -> (
    SchedulerModel,
    ExchangeModel,
    Seq<PinOp>,
) {
    let (ex2, grid2) = if s.next_row == 1 {
        swap_model(ex, s.grid)
    } else {
        (ex, s.grid)
    };
    let ops = send_row_ops(s.next_row, row_of(grid2, s.next_row));
    (
        SchedulerModel {
            grid: grid2,
            next_row: if s.next_row < 8 {
                s.next_row + 1
            } else {
                1
            },
            deadline: s.deadline + ROW_PERIOD_TICKS,
        },
        ex2,
        ops,
    )
}

/// The `(next_row, deadline)` pair after `n` ticks, ignoring frame content.
pub open spec fn cadence_after(next_row: int, deadline: int, n: nat) -> (int, int)
    decreases n,
{
    if n == 0 {
        (next_row, deadline)
    } else {
        let (r, d) = cadence_after(next_row, deadline, (n - 1) as nat);
        (
            if r < 8 {
                r + 1
            } else {
                1
            },
            d + ROW_PERIOD_TICKS,
        )
    }
}

/// Scheduler cadence: starting from row 1, after `n` ticks the next row is
/// `(n % 8) + 1`, and the re-armed deadline sits exactly `n` row periods
/// after the starting deadline, however late any tick actually ran.
pub proof fn lemma_cadence(deadline: int, n: nat)
    ensures
        cadence_after(1, deadline, n) == (((n % 8) + 1) as int, deadline + n * ROW_PERIOD_TICKS),
    decreases n,
{
    if n == 0 {
    } else {
        lemma_cadence(deadline, (n - 1) as nat);
        assert(n % 8 == ((n - 1) % 8 + 1) % 8) by (nonlinear_arith);
        assert(n * ROW_PERIOD_TICKS == (n - 1) * ROW_PERIOD_TICKS + ROW_PERIOD_TICKS)
            by (nonlinear_arith);
    }
}

/// A tick advances `(next_row, deadline)` exactly as the cadence says,
/// whatever the exchange held.
pub proof fn lemma_tick_follows_cadence(s: SchedulerModel, ex: ExchangeModel)
    ensures
        tick_model(s, ex).0.next_row == cadence_after(s.next_row, s.deadline, 1).0,
        tick_model(s, ex).0.deadline == cadence_after(s.next_row, s.deadline, 1).1,
{
    assert(cadence_after(s.next_row, s.deadline, 0) == (s.next_row, s.deadline));
}

/// The scheduler and exchange after `n` consecutive ticks.
pub open spec fn ticks_model(s: SchedulerModel, ex: ExchangeModel, n: nat) -> (
    SchedulerModel,
    ExchangeModel,
)
    decreases n,
{
    if n == 0 {
        (s, ex)
    } else {
        let (s1, ex1) = ticks_model(s, ex, (n - 1) as nat);
        let (s2, ex2, ops) = tick_model(s1, ex1);
        (s2, ex2)
    }
}

/// However many ticks run and whatever frames they swap in, the row counter
/// and the deadline follow the fixed cadence.
pub proof fn lemma_ticks_follow_cadence(s: SchedulerModel, ex: ExchangeModel, n: nat)
    ensures
        ticks_model(s, ex, n).0.next_row == cadence_after(s.next_row, s.deadline, n).0,
        ticks_model(s, ex, n).0.deadline == cadence_after(s.next_row, s.deadline, n).1,
    decreases n,
{
    if n > 0 {
        lemma_ticks_follow_cadence(s, ex, (n - 1) as nat);
    }
}

/// The periodic task that swaps in pending frames at row boundaries and
/// streams one row per tick to the hardware driver.
///
/// Its view is a [`SchedulerModel`].
pub struct DisplayScheduler {
    current: Image,
    next_row: usize,
    deadline: u64,
}

impl View for DisplayScheduler {
    type V = SchedulerModel;

    closed spec fn view(&self) -> SchedulerModel {
        SchedulerModel {
            grid: self.current@,
            next_row: self.next_row as int,
            deadline: self.deadline as int,
        }
    }
}

impl DisplayScheduler {
    /// The current buffer is a full grid and the row counter stays in
    /// `1..=8`.
    pub open spec fn wf(&self) -> bool {
        self@.grid.len() == 64 && 1 <= self@.next_row <= 8
    }

    /// Start streaming `current`, with row 1 due at `deadline`.
    pub fn new(current: Image, deadline: u64) -> (s: DisplayScheduler)
        requires
            current.wf(),
        ensures
            s.wf(),
            s@.grid == current@,
            s@.next_row == 1,
            s@.deadline == deadline,
    {
        DisplayScheduler { current, next_row: 1, deadline }
    }

    /// The 1-based row the next tick will send.
    pub fn next_row(&self) -> (r: usize)
        ensures
            r == self@.next_row,
    {
        self.next_row
    }

    /// The absolute deadline, in clock ticks, of the next tick.
    pub fn deadline(&self) -> (d: u64)
        ensures
            d == self@.deadline,
    {
        self.deadline
    }

    /// Read one cell of the frame currently being streamed.
    pub fn current_cell(&self, row: usize, col: usize) -> (c: Color)
        requires
            self.wf(),
            1 <= row <= 8,
            1 <= col <= 8,
        ensures
            c == self@.grid[(row - 1) * 8 + (col - 1)],
    {
        self.current.get(row, col)
    }

    /// Run one tick: swap in the pending frame at a row-1 boundary, send the
    /// row, advance the row counter, and re-arm one row period after the
    /// previous absolute deadline.
    pub fn tick(&mut self, ex: &mut Exchange, matrix: &mut Matrix)
        requires
            old(self).wf(),
            old(ex).inv(),
            old(self)@.deadline + ROW_PERIOD_TICKS <= u64::MAX,
        ensures
            final(self).wf(),
            final(ex).inv(),
            ({
                let (s2, ex2, ops) = tick_model(old(self)@, old(ex)@);
                &&& final(self)@ == s2
                &&& final(ex)@ == ex2
                &&& final(matrix)@ == old(matrix)@ + ops
            }),
    {
        if self.next_row == 1 {
            ex.swap_current(&mut self.current);
        }
        matrix.send_row(self.next_row, self.current.row(self.next_row));
        if self.next_row < 8 {
            self.next_row = self.next_row + 1;
        } else {
            self.next_row = 1;
        }
        self.deadline = self.deadline + ROW_PERIOD_TICKS;
    }
}

} // verus!
