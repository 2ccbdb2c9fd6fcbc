//! The toroidal grid and the generation engine.
//!
//! A [`Universe`] owns a rectangular grid of cells. One generation advance
//! recomputes every status from a snapshot of the prior grid under the
//! classic rule (survival with 2 or 3 live neighbors, birth with exactly 3),
//! with neighbor coordinates wrapping around both edges. A
//! [`UniverseTimer`] accumulates elapsed milliseconds so that generations
//! advance at a fixed cadence however often the host loop runs.

use vstd::prelude::*;
use vstd::arithmetic::div_mod::lemma_mod_add_multiples_vanish;
use vstd::arithmetic::div_mod::lemma_mod_self_0;
use vstd::arithmetic::div_mod::lemma_small_mod;

use crate::cell::Cell;
use crate::cell::CellStatus;

verus! {

/// Milliseconds between generation advances of a freshly built universe.
pub const DEFAULT_GENERATION_TIME: u64 = 200;

/// The grid state: fixed positive dimensions and exactly one cell per
/// coordinate.
pub struct Universe {
    pub width: u32,
    pub height: u32,
    /// Outer index is the row (`y`), inner index the column (`x`).
    pub cells: Vec<Vec<Cell>>,
    /// Milliseconds between generation advances.
    pub generation_time: u64,
}

/// The toroidal coordinate one step below `c`: 0 wraps to `dim - 1`.
pub open spec fn wrap_dec(c: int, dim: int) -> int {
    (c + dim - 1) % dim
}

/// The toroidal coordinate one step above `c`: `dim - 1` wraps to 0.
pub open spec fn wrap_inc(c: int, dim: int) -> int {
    (c + 1) % dim
}

/// The generation rule, first match wins: a live cell dies under 2 live
/// neighbors, survives on 2 or 3, dies over 3; a dead cell comes alive on
/// exactly 3 and otherwise stays dead.
pub open spec fn next_status(cur: CellStatus, live: nat) -> CellStatus {
    match cur {
        CellStatus::Alive => if live < 2 {
            CellStatus::Dead
        } else if live <= 3 {
            CellStatus::Alive
        } else {
            CellStatus::Dead
        },
        CellStatus::Dead => if live == 3 {
            CellStatus::Alive
        } else {
            CellStatus::Dead
        },
    }
}

impl Universe {
    /// Well-formedness: positive dimensions, a fully populated rectangular
    /// grid, and every cell carrying the coordinates of its slot.
    pub open spec fn wf(self) -> bool {
        &&& self.width > 0
        &&& self.height > 0
        &&& self.cells@.len() == self.height
        &&& forall|y: int| 0 <= y < self.height ==> (#[trigger] self.cells@[y])@.len() == self.width
        &&& forall|y: int, x: int|
            0 <= y < self.height && 0 <= x < self.width ==> ((#[trigger] self.cells@[y]@[x]).x
                == x && self.cells@[y]@[x].y == y)
    }

    /// The status stored at `(x, y)`.
    pub open spec fn status_at(self, x: int, y: int) -> CellStatus {
        self.cells@[y]@[x].status
    }

    /// What `(x, y)` adds to a neighbor count: 1 when alive, 0 when dead.
    pub open spec fn live_contrib(self, x: int, y: int) -> nat {
        self.status_at(x, y).spec_live_value()
    }

    /// How many of the 8 toroidal Moore neighbors of `(x, y)` are alive.
    /// The cell's own status is not a term of the sum.
    pub open spec fn neighbor_count(self, x: int, y: int) -> nat {
        let xm = wrap_dec(x, self.width as int);
        let xp = wrap_inc(x, self.width as int);
        let ym = wrap_dec(y, self.height as int);
        let yp = wrap_inc(y, self.height as int);
        self.live_contrib(xm, ym) + self.live_contrib(x, ym) + self.live_contrib(xp, ym)
            + self.live_contrib(xm, y) + self.live_contrib(xp, y) + self.live_contrib(xm, yp)
            + self.live_contrib(x, yp) + self.live_contrib(xp, yp)
    }

    /// `self` is exactly one generation after `prev`: the same shape, and
    /// every status is the rule applied to `prev`'s status and count there.
    pub open spec fn advanced_from(self, prev: Universe) -> bool {
        &&& self.width == prev.width
        &&& self.height == prev.height
        &&& forall|x: int, y: int|
            0 <= x < prev.width && 0 <= y < prev.height ==> #[trigger] self.status_at(x, y)
                == next_status(prev.status_at(x, y), prev.neighbor_count(x, y))
    }

    /// Builds a `width × height` universe with every cell's status drawn
    /// independently at random, and the default generation interval.
    pub fn init(width: u32, height: u32) -> (u: Universe)
        requires
            width > 0,
            height > 0,
        ensures
            u.wf(),
            u.width == width,
            u.height == height,
            u.generation_time == DEFAULT_GENERATION_TIME,
    {
        let mut cells: Vec<Vec<Cell>> = Vec::new();
        let mut y: u32 = 0;
        while y < height
            invariant
                y <= height,
                cells@.len() == y,
                forall|yy: int| 0 <= yy < y ==> (#[trigger] cells@[yy])@.len() == width,
                forall|yy: int, xx: int|
                    0 <= yy < y && 0 <= xx < width ==> ((#[trigger] cells@[yy]@[xx]).x == xx
                        && cells@[yy]@[xx].y == yy),
            decreases height - y,
        {
            let mut row_vec: Vec<Cell> = Vec::new();
            let mut x: u32 = 0;
            while x < width
                invariant
                    x <= width,
                    row_vec@.len() == x,
                    forall|xx: int|
                        0 <= xx < x ==> ((#[trigger] row_vec@[xx]).x == xx && row_vec@[xx].y == y),
                decreases width - x,
            {
                let status = if random_bool() {
                    CellStatus::Alive
                } else {
                    CellStatus::Dead
                };
                row_vec.push(Cell::new(x, y, status));
                x = x + 1;
            }
            cells.push(row_vec);
            y = y + 1;
        }
        Universe { width, height, cells, generation_time: DEFAULT_GENERATION_TIME }
    }

    /// Looks up the cell at `(x, y)`: present exactly when both coordinates
    /// are in range, and then it is the stored cell itself.
    pub fn get_cell(&self, x: u32, y: u32) -> (r: Option<&Cell>)
        requires
            self.wf(),
        ensures
            x < self.width && y < self.height ==> (r matches Some(c) && *c == self.cells@[y as int]@[x as int]),
            !(x < self.width && y < self.height) ==> r is None,
    {
        if y < self.height && x < self.width {
            Some(&self.cells[y as usize][x as usize])
        } else {
            None
        }
    }

    /// Counts the live cells among the 8 toroidal neighbors of `(x, y)`.
    pub fn live_neighbor(&self, x: u32, y: u32) -> (count: u8)
        requires
            self.wf(),
            x < self.width,
            y < self.height,
        ensures
            count as nat == self.neighbor_count(x as int, y as int),
            count <= 8,
    {
        let w = self.width as u64;
        let h = self.height as u64;
        let xm = ((x as u64 + w - 1) % w) as u32;
        let xp = ((x as u64 + 1) % w) as u32;
        let ym = ((y as u64 + h - 1) % h) as u32;
        let yp = ((y as u64 + 1) % h) as u32;
        let mut count: u8 = 0;
        count = count + self.get_cell(xm, ym).unwrap().status.live_value();
        count = count + self.get_cell(x, ym).unwrap().status.live_value();
        count = count + self.get_cell(xp, ym).unwrap().status.live_value();
        count = count + self.get_cell(xm, y).unwrap().status.live_value();
        count = count + self.get_cell(xp, y).unwrap().status.live_value();
        count = count + self.get_cell(xm, yp).unwrap().status.live_value();
        count = count + self.get_cell(x, yp).unwrap().status.live_value();
        count = count + self.get_cell(xp, yp).unwrap().status.live_value();
        count
    }

    /// Builds the next generation's rows from a snapshot of the current
    /// grid, leaving the current grid untouched.
    fn compute_next_cells(&self) -> (next: Vec<Vec<Cell>>)
        requires
            self.wf(),
        ensures
            next@.len() == self.height,
            forall|y: int| 0 <= y < self.height ==> (#[trigger] next@[y])@.len() == self.width,
            forall|y: int, x: int|
                0 <= y < self.height && 0 <= x < self.width ==> ((#[trigger] next@[y]@[x]).x == x
                    && next@[y]@[x].y == y && next@[y]@[x].status == next_status(
                    self.status_at(x, y),
                    self.neighbor_count(x, y),
                )),
    {
        let mut next_cells: Vec<Vec<Cell>> = Vec::new();
        let mut y: u32 = 0;
        while y < self.height
            invariant
                self.wf(),
                y <= self.height,
                next_cells@.len() == y,
                forall|yy: int| 0 <= yy < y ==> (#[trigger] next_cells@[yy])@.len() == self.width,
                forall|yy: int, xx: int|
                    0 <= yy < y && 0 <= xx < self.width ==> ((#[trigger] next_cells@[yy]@[xx]).x
                        == xx && next_cells@[yy]@[xx].y == yy && next_cells@[yy]@[xx].status
                        == next_status(self.status_at(xx, yy), self.neighbor_count(xx, yy))),
            decreases self.height - y,
        {
            let mut row_vec: Vec<Cell> = Vec::new();
            let mut x: u32 = 0;
            while x < self.width
                invariant
                    self.wf(),
                    y < self.height,
                    x <= self.width,
                    row_vec@.len() == x,
                    forall|xx: int|
                        0 <= xx < x ==> ((#[trigger] row_vec@[xx]).x == xx && row_vec@[xx].y == y
                            && row_vec@[xx].status == next_status(
                            self.status_at(xx, y as int),
                            self.neighbor_count(xx, y as int),
                        )),
                decreases self.width - x,
            {
                let cur = self.get_cell(x, y).unwrap().status;
                let live = self.live_neighbor(x, y);
                row_vec.push(Cell::new(x, y, step(cur, live)));
                x = x + 1;
            }
            next_cells.push(row_vec);
            y = y + 1;
        }
        next_cells
    }

    /// Advances the whole grid one generation synchronously: every new
    /// status is computed from the prior snapshot, built into a fresh
    /// buffer that then replaces the old grid in one step. Dimensions and
    /// the generation interval are preserved.
    pub fn next_generation(&mut self)
        requires
            old(self).wf(),
        ensures
            final(self).wf(),
            final(self).width == old(self).width,
            final(self).height == old(self).height,
            final(self).generation_time == old(self).generation_time,
            final(self).advanced_from(*old(self)),
    {
        let next_cells = self.compute_next_cells();
        self.cells = next_cells;
    }
}

/// The generation rule on executable values; `live` is a full neighbor
/// count, so at most 8.
fn step(cur: CellStatus, live: u8) -> (r: CellStatus)
    ensures
        r == next_status(cur, live as nat),
{
    match cur {
        CellStatus::Alive => if live < 2 {
            CellStatus::Dead
        } else if live <= 3 {
            CellStatus::Alive
        } else {
            CellStatus::Dead
        },
        CellStatus::Dead => if live == 3 {
            CellStatus::Alive
        } else {
            CellStatus::Dead
        },
    }
}

/// Relies on `rand::random::<bool>`: draws one uniformly random bool from
/// the thread-local generator. Nothing is assumed of which one comes back.
#[verifier::external_body]
fn random_bool() -> bool {
    rand::random()
}

/// The elapsed-time accumulator that gates generation advances.
pub struct UniverseTimer {
    /// Milliseconds that must accumulate before a generation fires.
    pub interval: u64,
    /// Milliseconds accumulated since the last firing.
    pub elapsed: u64,
}

impl UniverseTimer {
    /// A positive interval, with the accumulator still below it.
    pub open spec fn wf(self) -> bool {
        self.interval > 0 && self.elapsed < self.interval
    }

    /// A repeating timer that first fires once `interval` milliseconds have
    /// accumulated.
    pub fn new(interval: u64) -> (t: UniverseTimer)
        requires
            interval > 0,
        ensures
            t.wf(),
            t.interval == interval,
            t.elapsed == 0,
    {
        UniverseTimer { interval, elapsed: 0 }
    }
}

/// Builds the repeating generation timer from the universe's configured
/// interval.
pub fn setup_timer(universe: &Universe) -> (t: UniverseTimer)
    requires
        universe.generation_time > 0,
    ensures
        t.wf(),
        t.interval == universe.generation_time,
        t.elapsed == 0,
{
    UniverseTimer::new(universe.generation_time)
}

/// The per-tick entry point: accumulates `delta` elapsed milliseconds and,
/// once the interval is reached, advances exactly one generation and
/// re-arms the timer, carrying the remainder. Shorter accumulations leave
/// the grid untouched; at most one generation fires per call.
pub fn tick(universe: &mut Universe, timer: &mut UniverseTimer, delta: u64) -> (fired: bool)
    requires
        old(universe).wf(),
        old(timer).wf(),
        old(timer).elapsed + delta <= u64::MAX,
    ensures
        final(universe).wf(),
        final(timer).wf(),
        final(timer).interval == old(timer).interval,
        fired <==> old(timer).elapsed + delta >= old(timer).interval,
        !fired ==> *final(universe) == *old(universe) && final(timer).elapsed == old(
            timer,
        ).elapsed + delta,
        fired ==> final(universe).advanced_from(*old(universe)) && final(universe).generation_time
            == old(universe).generation_time && final(timer).elapsed == (old(timer).elapsed
            + delta) % (old(timer).interval as int),
{
    let total = timer.elapsed + delta;
    if total >= timer.interval {
        universe.next_generation();
        timer.elapsed = total % timer.interval;
        true
    } else {
        timer.elapsed = total;
        false
    }
}

/// Wrapping one step down from an in-range coordinate lands on `dim - 1`
/// exactly at the low edge, and otherwise subtracts one.
pub proof fn lemma_wrap_dec(c: int, dim: int)
    requires
        0 <= c < dim,
    ensures
        wrap_dec(c, dim) == if c == 0 {
            dim - 1
        } else {
            c - 1
        },
{
    if c == 0 {
        lemma_small_mod((dim - 1) as nat, dim as nat);
    } else {
        lemma_mod_add_multiples_vanish(c - 1, dim);
        lemma_small_mod((c - 1) as nat, dim as nat);
    }
}

/// Wrapping one step up from an in-range coordinate lands on 0 exactly at
/// the high edge, and otherwise adds one.
pub proof fn lemma_wrap_inc(c: int, dim: int)
    requires
        0 <= c < dim,
    ensures
        wrap_inc(c, dim) == if c == dim - 1 {
            0
        } else {
            c + 1
        },
{
    if c == dim - 1 {
        lemma_mod_self_0(dim);
    } else {
        lemma_small_mod((c + 1) as nat, dim as nat);
    }
}

/// A live cell survives exactly when it has 2 or 3 live neighbors; with
/// fewer than 2 or more than 3 it dies.
pub proof fn lemma_survival(prev: Universe, next: Universe, x: int, y: int)
    requires
        next.advanced_from(prev),
        0 <= x < prev.width,
        0 <= y < prev.height,
        prev.status_at(x, y) == CellStatus::Alive,
    ensures
        next.status_at(x, y) == (if 2 <= prev.neighbor_count(x, y) <= 3 {
            CellStatus::Alive
        } else {
            CellStatus::Dead
        }),
{
    assert(next.status_at(x, y) == next_status(prev.status_at(x, y), prev.neighbor_count(x, y)));
}

/// A dead cell comes alive exactly when it has 3 live neighbors, and
/// otherwise stays dead.
pub proof fn lemma_birth(prev: Universe, next: Universe, x: int, y: int)
    requires
        next.advanced_from(prev),
        0 <= x < prev.width,
        0 <= y < prev.height,
        prev.status_at(x, y) == CellStatus::Dead,
    ensures
        next.status_at(x, y) == (if prev.neighbor_count(x, y) == 3 {
            CellStatus::Alive
        } else {
            CellStatus::Dead
        }),
{
    assert(next.status_at(x, y) == next_status(prev.status_at(x, y), prev.neighbor_count(x, y)));
}

/// A neighbor count is a sum of 8 terms that are each 0 or 1, so it never
/// exceeds 8.
pub proof fn lemma_neighbor_count_bounds(u: Universe, x: int, y: int)
    ensures
        u.neighbor_count(x, y) <= 8,
{
}

/// The count never reads the cell's own status: on a grid at least 2 wide
/// and 2 high, two universes that agree everywhere except at `(x, y)`
/// itself give `(x, y)` the same neighbor count.
pub proof fn lemma_neighbor_count_ignores_self(a: Universe, b: Universe, x: int, y: int)
    requires
        a.wf(),
        b.wf(),
        a.width == b.width,
        a.height == b.height,
        a.width >= 2,
        a.height >= 2,
        0 <= x < a.width,
        0 <= y < a.height,
        forall|i: int, j: int|
            0 <= i < a.width && 0 <= j < a.height && !(i == x && j == y) ==> #[trigger] a.status_at(
                i,
                j,
            ) == b.status_at(i, j),
    ensures
        a.neighbor_count(x, y) == b.neighbor_count(x, y),
{
    lemma_wrap_dec(x, a.width as int);
    lemma_wrap_inc(x, a.width as int);
    lemma_wrap_dec(y, a.height as int);
    lemma_wrap_inc(y, a.height as int);
}

/// Neighbor counting is toroidal: the cell at the origin counts the cell in
/// the opposite corner `(width - 1, height - 1)` as its diagonal neighbor.
/// With every other cell dead, that corner alone makes the count 1.
pub proof fn lemma_toroidal_corner(u: Universe)
    requires
        u.wf(),
        u.width >= 3,
        u.height >= 3,
        u.status_at(u.width - 1, u.height - 1) == CellStatus::Alive,
        forall|i: int, j: int|
            0 <= i < u.width && 0 <= j < u.height && !(i == u.width - 1 && j == u.height - 1)
                ==> #[trigger] u.status_at(i, j) == CellStatus::Dead,
    ensures
        u.neighbor_count(0, 0) == 1,
{
    lemma_wrap_dec(0, u.width as int);
    lemma_wrap_inc(0, u.width as int);
    lemma_wrap_dec(0, u.height as int);
    lemma_wrap_inc(0, u.height as int);
}

} // verus!
