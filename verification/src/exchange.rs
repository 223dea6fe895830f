//! The fixed-capacity buffer pool and the single-slot pending-frame exchange.
//!
//! Exactly three frame buffers exist: the one the scheduler is displaying,
//! the one the decoder is filling, and one more that is either free in the
//! pool or installed as the pending frame. The exchange hands the newest
//! completed frame from the decoder to the scheduler; an undisplayed earlier
//! frame is freed, never queued. In the running system the two handoffs are
//! serialized by a short critical section; here that atomicity is carried by
//! exclusive `&mut` access.

use vstd::prelude::*;

use crate::image::{gradient_grid, Color, Image};

verus! {

/// The capacity of the pool: current, receive, and one floating buffer.
pub const POOL_CAPACITY: usize = 3;

/// A fixed-capacity preallocated pool of frame buffers.
///
/// Its view is the stack of free buffer contents; `allocate` pops the last
/// entry, `free` pushes one.
pub struct BufferPool {
    free: Vec<Image>,
}

impl View for BufferPool {
    type V = Seq<Seq<Color>>;

    closed spec fn view(&self) -> Seq<Seq<Color>> {
        Seq::new(self.free@.len() as nat, |i: int| self.free@[i]@)
    }
}

impl BufferPool {
    /// Every buffer held by a well-formed pool is a full 64-cell grid, and
    /// the pool never exceeds its capacity.
    pub open spec fn wf(&self) -> bool {
        &&& self@.len() <= POOL_CAPACITY
        &&& forall|i: int| 0 <= i < self@.len() ==> (#[trigger] self@[i]).len() == 64
    }

    /// Grow the pool to its full capacity of three blank buffers.
    pub fn new() -> (pool: BufferPool)
        ensures
            pool.wf(),
            pool@.len() == POOL_CAPACITY,
            forall|i: int, j: int|
                0 <= i < POOL_CAPACITY && 0 <= j < 64 ==> (#[trigger] pool@[i][j]) == (Color {
                    r: 0,
                    g: 0,
                    b: 0,
                }),
    {
        let mut free: Vec<Image> = Vec::new();
        free.push(Image::new_solid(Color { r: 0, g: 0, b: 0 }));
        free.push(Image::new_solid(Color { r: 0, g: 0, b: 0 }));
        free.push(Image::new_solid(Color { r: 0, g: 0, b: 0 }));
        let pool = BufferPool { free };
        proof {
            assert(pool@.len() == 3);
        }
        pool
    }

    /// How many buffers are free right now.
    pub fn available(&self) -> (n: usize)
        ensures
            n == self@.len(),
    {
        self.free.len()
    }

    /// Take exclusive ownership of a free buffer. Exhaustion is a fatal
    /// invariant violation, never a recoverable condition, so a caller must
    /// show a buffer remains.
    pub fn allocate(&mut self) -> (img: Image)
        requires
            old(self).wf(),
            old(self)@.len() > 0,
        ensures
            final(self).wf(),
            img.wf(),
            img@ == old(self)@.last(),
            final(self)@ == old(self)@.drop_last(),
    {
        let img = self.free.pop().unwrap();
        proof {
            assert(final(self)@ =~= old(self)@.drop_last());
            assert(img@ == old(self)@[old(self)@.len() - 1]);
        }
        img
    }

    /// Return ownership of a buffer to the pool.
    pub fn free(&mut self, img: Image)
        requires
            old(self).wf(),
            old(self)@.len() < POOL_CAPACITY,
            img.wf(),
        ensures
            final(self).wf(),
            final(self)@ == old(self)@.push(img@),
    {
        self.free.push(img);
        proof {
            assert(final(self)@ =~= old(self)@.push(img@));
        }
    }
}

/// The spec-level state of an [`Exchange`]: the free buffer contents and the
/// content of the pending frame, if one is installed.
pub struct ExchangeModel {
    /// The contents of the buffers free in the pool, oldest first.
    pub free: Seq<Seq<Color>>,
    /// The content of the pending completed-but-undisplayed frame.
    pub pending: Option<Seq<Color>>,
}

impl ExchangeModel {
    /// How many of the three buffers are accounted for here rather than
    /// owned by the decoder or the scheduler.
    pub open spec fn occupancy(self) -> int {
        self.free.len() + if self.pending is Some {
            1int
        } else {
            0int
        }
    }

    /// In the steady state of the protocol exactly one buffer floats here:
    /// free, or pending, never both; and every buffer is a full grid.
    pub open spec fn inv(self) -> bool {
        &&& self.occupancy() == 1
        &&& forall|i: int| 0 <= i < self.free.len() ==> (#[trigger] self.free[i]).len() == 64
        &&& self.pending is Some ==> self.pending->0.len() == 64
    }
}

/// The decoder-side handoff of a completed frame `done`: an undisplayed
/// earlier pending frame is freed back to the pool, `done` becomes pending,
/// and a fresh buffer is allocated for the decoder and repainted as the blue
/// diagnostic gradient.
pub open spec fn publish_model(m: ExchangeModel, done: Seq<Color>) -> (ExchangeModel, Seq<Color>) {
    let freed = if m.pending is Some {
        m.free.push(m.pending->0)
    } else {
        m.free
    };
    (ExchangeModel { free: freed.drop_last(), pending: Some(done) }, gradient_grid(
        Color { r: 0, g: 0, b: 255 },
    ))
}

/// The scheduler-side handoff at a row-1 tick: when a pending frame exists
/// it replaces the scheduler's current buffer, whose old content returns to
/// the pool; otherwise nothing changes.
pub open spec fn swap_model(m: ExchangeModel, current: Seq<Color>) -> (ExchangeModel, Seq<Color>) {
    if m.pending is Some {
        (ExchangeModel { free: m.free.push(current), pending: None }, m.pending->0)
    } else {
        (m, current)
    }
}

/// The single-slot handoff of the newest completed frame from the decoder to
/// the scheduler, together with the pool that backs it.
///
/// Its view is an [`ExchangeModel`].
pub struct Exchange {
    pool: BufferPool,
    pending: Option<Image>,
}

impl View for Exchange {
    type V = ExchangeModel;

    closed spec fn view(&self) -> ExchangeModel {
        ExchangeModel {
            free: self.pool@,
            pending: match self.pending {
                Some(img) => Some(img@),
                None => None,
            },
        }
    }
}

impl Exchange {
    /// The exchange is well formed when its pool is and the steady-state
    /// accounting holds.
    pub open spec fn inv(&self) -> bool {
        self@.inv()
    }

    /// Build the startup state: a pool grown to capacity from which the
    /// caller's two working buffers are taken, and no pending frame. Every
    /// buffer starts blank.
    pub fn new() -> (r: (Exchange, Image, Image))
        ensures
            r.0.inv(),
            r.0@.pending is None,
            r.1.wf(),
            r.2.wf(),
            forall|j: int| 0 <= j < 64 ==> (#[trigger] r.1@[j]) == (Color { r: 0, g: 0, b: 0 }),
            forall|j: int| 0 <= j < 64 ==> (#[trigger] r.2@[j]) == (Color { r: 0, g: 0, b: 0 }),
    {
        let mut pool = BufferPool::new();
        let current = pool.allocate();
        let receive = pool.allocate();
        let ex = Exchange { pool, pending: None };
        (ex, current, receive)
    }

    /// Whether a completed frame awaits display.
    pub fn has_pending(&self) -> (r: bool)
        ensures
            r == (self@.pending is Some),
    {
        self.pending.is_some()
    }

    /// How many buffers are free in the pool right now.
    pub fn free_buffers(&self) -> (n: usize)
        ensures
            n == self@.free.len(),
    {
        self.pool.available()
    }

    /// Read one cell of the pending frame, if one is installed.
    pub fn pending_cell(&self, row: usize, col: usize) -> (c: Option<Color>)
        requires
            self.inv(),
            1 <= row <= 8,
            1 <= col <= 8,
        ensures
            self@.pending is Some ==> c == Some(
                self@.pending->0[crate::image::cell_index(row as int, col as int)],
            ),
            self@.pending is None ==> c is None,
    {
        match &self.pending {
            Some(img) => Some(img.get(row, col)),
            None => None,
        }
    }

    /// Decoder-side handoff: `rx` holds a completed frame; install it as
    /// pending — freeing an undisplayed predecessor — and leave `rx` a
    /// freshly allocated buffer repainted as the blue diagnostic gradient.
    pub fn publish(&mut self, rx: &mut Image)
        requires
            old(self).inv(),
            old(rx).wf(),
        ensures
            final(self).inv(),
            final(rx).wf(),
            (final(self)@, final(rx)@) == publish_model(old(self)@, old(rx)@),
    {
        if let Some(prev) = self.pending.take() {
            self.pool.free(prev);
        }
        let mut fresh = self.pool.allocate();
        fresh.paint_gradient(Color { r: 0, g: 0, b: 255 });
        core::mem::swap(rx, &mut fresh);
        self.pending = Some(fresh);
    }

    /// Scheduler-side handoff at a row boundary: when a pending frame
    /// exists, exchange it with `current` and return the old current buffer
    /// to the pool; otherwise leave `current` untouched.
    pub fn swap_current(&mut self, current: &mut Image)
        requires
            old(self).inv(),
            old(current).wf(),
        ensures
            final(self).inv(),
            final(current).wf(),
            (final(self)@, final(current)@) == swap_model(old(self)@, old(current)@),
    {
        if let Some(mut image) = self.pending.take() {
            core::mem::swap(current, &mut image);
            self.pool.free(image);
        }
    }
}

/// The decoder-side handoff keeps the steady-state accounting: exactly one
/// buffer floats in the exchange before and after, every buffer a full grid.
pub proof fn lemma_publish_preserves_inv(m: ExchangeModel, done: Seq<Color>)
    requires
        m.inv(),
        done.len() == 64,
    ensures
        publish_model(m, done).0.inv(),
        publish_model(m, done).0.pending == Some(done),
        publish_model(m, done).1 == gradient_grid(Color { r: 0, g: 0, b: 255 }),
{
    if m.pending is Some {
        assert(m.free.push(m.pending->0).drop_last() =~= m.free);
    }
}

/// Newest frame wins, and no buffer leaks: completing two frames before any
/// scheduler tick leaves only the second as pending; at the next row-1 tick
/// only the second becomes current, and the exchange holds exactly as many
/// buffers as before the two frames arrived.
pub proof fn lemma_newest_frame_wins(
    m: ExchangeModel,
    f1: Seq<Color>,
    f2: Seq<Color>,
    current: Seq<Color>,
)
    requires
        m.inv(),
    ensures
        ({
            let (m1, rx1) = publish_model(m, f1);
            let (m2, rx2) = publish_model(m1, f2);
            let (m3, current3) = swap_model(m2, current);
            &&& m2.pending == Some(f2)
            &&& current3 == f2
            &&& m3.pending is None
            &&& m3.occupancy() == m.occupancy()
        }),
{
}

} // verus!
