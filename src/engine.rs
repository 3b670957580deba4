use vstd::prelude::*;
use crate::chance::draw_between;
use crate::grid::HeatGrid;
use crate::ignition::{ignites, ignites_spec, SPARK_RANGE};
use crate::rules::{interior_heat, interior_rule, source_heat, source_rule};

verus! {

/// Least and greatest decay subtracted from a cell above the source row.
pub const DECAY_LOW: u8 = 15;
pub const DECAY_HIGH: u8 = 18;

/// Least and greatest magnitude of the flicker added to or taken from a cell.
pub const FLUCTUATION_LOW: u8 = 12;
pub const FLUCTUATION_HIGH: u8 = 15;

/// Least heat injected into an igniting source cell (the greatest is 255).
pub const FRESH_LOW: u8 = 200;

/// The default decay range of a source cell that does not ignite.
pub const SOURCE_DECAY_LOW: u8 = 5;
pub const SOURCE_DECAY_HIGH: u8 = 10;

/// The random values one cell consumes in one tick. A cell above the source row
/// reads `decay`, `fluctuation` and `raise`; a source cell reads `spark`,
/// `fresh` and `decay`.
#[derive(Clone, Copy, Debug, PartialEq, Eq)]
pub struct CellDraw {
    pub decay: u8,
    pub fluctuation: u8,
    pub raise: bool,
    pub spark: u32,
    pub fresh: u8,
}

/// The draws of one tick, laid out as the grid is: `rows[y][x]`.
pub struct TickDraws {
    pub rows: Vec<Vec<CellDraw>>,
}

impl View for TickDraws {
    type V = Seq<Seq<CellDraw>>;

    closed spec fn view(&self) -> Seq<Seq<CellDraw>> {
        self.rows@.map_values(|row: Vec<CellDraw>| row@)
    }
}

impl TickDraws {
    /// The draw for cell `(x, y)`.
    pub fn at(&self, x: usize, y: usize) -> (r: CellDraw)
        requires
            y < self@.len(),
            x < self@[y as int].len(),
        ensures
            r == self@[y as int][x as int],
    {
        assert(self@[y as int] == self.rows@[y as int]@);
        self.rows[y][x]
    }

    /// Fresh random draws for a grid `width` by `height`, with the source row's
    /// decay drawn from `low..=high`.
    pub fn random(width: u16, height: u16, low: u8, high: u8) -> (r: TickDraws)
        requires
            low <= high,
        ensures
            draws_in_range(r@, width as int, height as int, low, high),
            draws_fit(r@, width as int, height as int),
    {
        let mut rows: Vec<Vec<CellDraw>> = Vec::new();
        let mut y: u16 = 0;
        while y < height
            invariant
                y <= height,
                low <= high,
                rows@.len() == y,
                forall|j: int| 0 <= j < y ==> (#[trigger] rows@[j])@.len() == width,
                forall|i: int, j: int|
                    0 <= j < y && 0 <= i < width ==> draw_in_range(
                        #[trigger] rows@[j]@[i],
                        j == height - 1,
                        low,
                        high,
                    ),
            decreases height - y,
        {
            let source = y + 1 == height;
            let mut row: Vec<CellDraw> = Vec::new();
            let mut x: u16 = 0;
            while x < width
                invariant
                    x <= width,
                    low <= high,
                    row@.len() == x,
                    forall|i: int| 0 <= i < x ==> draw_in_range(#[trigger] row@[i], source, low, high),
                decreases width - x,
            {
                let c = if source {
                    CellDraw {
                        decay: draw_between(low as u32, high as u32) as u8,
                        fluctuation: 0,
                        raise: false,
                        spark: draw_between(0, SPARK_RANGE - 1),
                        fresh: draw_between(FRESH_LOW as u32, 255) as u8,
                    }
                } else {
                    CellDraw {
                        decay: draw_between(DECAY_LOW as u32, DECAY_HIGH as u32) as u8,
                        fluctuation: draw_between(FLUCTUATION_LOW as u32, FLUCTUATION_HIGH as u32) as u8,
                        raise: draw_between(0, 1) == 1,
                        spark: 0,
                        fresh: 0,
                    }
                };
                row.push(c);
                x = x + 1;
            }
            rows.push(row);
            y = y + 1;
        }
        let r = TickDraws { rows };
        assert forall|j: int| 0 <= j < height implies #[trigger] r@[j] == r.rows@[j]@ by {}
        assert forall|i: int| 0 <= i < width && height > 0 implies (#[trigger] r@[height - 1][i]).spark
            < SPARK_RANGE by {
            assert(draw_in_range(r@[height - 1][i], true, low, high));
        }
        r
    }
}

impl HeatGrid {
    /// The grid of the next tick, computed from this one alone (double-buffered)
    /// with the given draws.
    pub fn next_tick(&self, draws: &TickDraws) -> (r: HeatGrid)
        requires
            self.wf(),
            draws_fit(draws@, self.spec_width(), self.spec_height()),
        ensures
            r.wf(),
            r.spec_width() == self.spec_width(),
            r.spec_height() == self.spec_height(),
            r@ == next_grid(self@, self.spec_width(), self.spec_height(), draws@),
    {
        let w = self.width();
        let h = self.height();
        let ghost g = self@;
        let ghost d = draws@;
        let mut rows: Vec<Vec<u8>> = Vec::new();
        let mut y: u16 = 0;
        while y < h
            invariant
                self.wf(),
                w == self.spec_width(),
                h == self.spec_height(),
                g == self@,
                d == draws@,
                draws_fit(d, w as int, h as int),
                y <= h,
                rows@.len() == y,
                forall|j: int| 0 <= j < y ==> (#[trigger] rows@[j])@ == next_grid(g, w as int, h as int, d)[j],
            decreases h - y,
        {
            let mut row: Vec<u8> = Vec::new();
            let mut x: u16 = 0;
            while x < w
                invariant
                    self.wf(),
                    w == self.spec_width(),
                    h == self.spec_height(),
                    g == self@,
                    d == draws@,
                    draws_fit(d, w as int, h as int),
                    y < h,
                    x <= w,
                    row@.len() == x,
                    forall|i: int| 0 <= i < x ==> #[trigger] row@[i] as int == next_heat(g, w as int, h as int, d, i, y as int),
                decreases w - x,
            {
                let c = draws.at(x as usize, y as usize);
                let current = self.get(x, y);
                let v = if y + 1 == h {
                    assert(d[h - 1][x as int] == c);
                    source_heat(current, ignites(x, w, c.spark), c.fresh, c.decay)
                } else {
                    let below = self.get(x, y + 1);
                    let left = if x > 0 {
                        Some(self.get(x - 1, y))
                    } else {
                        None
                    };
                    let right = if x + 1 < w {
                        Some(self.get(x + 1, y))
                    } else {
                        None
                    };
                    interior_heat(below, current, left, right, c.decay, c.fluctuation, c.raise)
                };
                row.push(v);
                x = x + 1;
            }
            proof {
                lemma_next_in_range(g, w as int, h as int, d);
                assert(row@ =~= next_grid(g, w as int, h as int, d)[y as int]);
            }
            rows.push(row);
            y = y + 1;
        }
        let r = HeatGrid::from_rows(w, h, rows);
        assert(r@ =~= next_grid(g, w as int, h as int, d));
        r
    }

    /// Advances the fire by one tick with fresh random draws, the source row's
    /// decay drawn from `low..=high`.
    pub fn update(&mut self, low: u8, high: u8)
        requires
            old(self).wf(),
            low <= high,
        ensures
            final(self).wf(),
            final(self).spec_width() == old(self).spec_width(),
            final(self).spec_height() == old(self).spec_height(),
            exists|d: Seq<Seq<CellDraw>>|
                draws_in_range(d, old(self).spec_width(), old(self).spec_height(), low, high)
                    && final(self)@ == next_grid(
                    old(self)@,
                    old(self).spec_width(),
                    old(self).spec_height(),
                    d,
                ),
    {
        let draws = TickDraws::random(self.width(), self.height(), low, high);
        let next = self.next_tick(&draws);
        *self = next;
    }
}

/// `g` has `h` rows of `w` cells.
pub open spec fn grid_shape<T>(g: Seq<Seq<T>>, w: int, h: int) -> bool {
    &&& g.len() == h
    &&& forall|y: int| 0 <= y < h ==> #[trigger] g[y].len() == w
}

/// Draws that the cell rules can consume: every source spark is in range.
pub open spec fn draws_fit(d: Seq<Seq<CellDraw>>, w: int, h: int) -> bool {
    &&& grid_shape(d, w, h)
    &&& forall|x: int| 0 <= x < w && h > 0 ==> (#[trigger] d[h - 1][x]).spark < SPARK_RANGE
}

/// A draw that the random source can produce for a cell, with the source row's
/// decay drawn from `low..=high`.
pub open spec fn draw_in_range(c: CellDraw, source: bool, low: u8, high: u8) -> bool {
    if source {
        &&& c.spark < SPARK_RANGE
        &&& FRESH_LOW <= c.fresh
        &&& low <= c.decay <= high
    } else {
        &&& DECAY_LOW <= c.decay <= DECAY_HIGH
        &&& FLUCTUATION_LOW <= c.fluctuation <= FLUCTUATION_HIGH
    }
}

pub open spec fn draws_in_range(d: Seq<Seq<CellDraw>>, w: int, h: int, low: u8, high: u8) -> bool {
    &&& grid_shape(d, w, h)
    &&& forall|x: int, y: int|
        0 <= x < w && 0 <= y < h ==> draw_in_range(#[trigger] d[y][x], y == h - 1, low, high)
}

pub open spec fn left_of(g: Seq<Seq<u8>>, x: int, y: int) -> Option<u8> {
    if x > 0 {
        Some(g[y][x - 1])
    } else {
        None
    }
}

pub open spec fn right_of(g: Seq<Seq<u8>>, w: int, x: int, y: int) -> Option<u8> {
    if x + 1 < w {
        Some(g[y][x + 1])
    } else {
        None
    }
}

/// The next-tick heat of cell `(x, y)`, read only from the previous tick `g`.
pub open spec fn next_heat(g: Seq<Seq<u8>>, w: int, h: int, d: Seq<Seq<CellDraw>>, x: int, y: int) -> int {
    let c = d[y][x];
    if y == h - 1 {
        source_rule(g[y][x], ignites_spec(x, w, c.spark as int), c.fresh, c.decay)
    } else {
        interior_rule(
            g[y + 1][x],
            g[y][x],
            left_of(g, x, y),
            right_of(g, w, x, y),
            c.decay,
            c.fluctuation,
            c.raise,
        )
    }
}

/// The whole next-tick grid.
pub open spec fn next_grid(g: Seq<Seq<u8>>, w: int, h: int, d: Seq<Seq<CellDraw>>) -> Seq<Seq<u8>> {
    Seq::new(h as nat, |y: int| Seq::new(w as nat, |x: int| next_heat(g, w, h, d, x, y) as u8))
}

/// Every cell of every tick stays in the heat range, whatever the grid and the draws.
pub proof fn lemma_next_in_range(g: Seq<Seq<u8>>, w: int, h: int, d: Seq<Seq<CellDraw>>)
    ensures
        forall|x: int, y: int|
            0 <= x < w && 0 <= y < h ==> 0 <= #[trigger] next_heat(g, w, h, d, x, y) <= 255,
{
}

/// The cells that a single hot cell at `(sx, sy)` can reach in one tick: itself,
/// the cell above it, and its left and right neighbours.
pub open spec fn near_seed(x: int, y: int, sx: int, sy: int) -> bool {
    ||| x == sx && (y == sy || y == sy - 1)
    ||| y == sy && (x == sx - 1 || x == sx + 1)
}

/// Heat spreads one cell per tick. From a grid that is cold but for the cell
/// `(sx, sy)`, every other cell stays cold, provided that no such cell draws a
/// rising flicker (above the source row) or ignites (in it): those draws heat a
/// cell out of nothing.
pub proof fn lemma_locality(g: Seq<Seq<u8>>, w: int, h: int, d: Seq<Seq<CellDraw>>, sx: int, sy: int)
    requires
        grid_shape(g, w, h),
        grid_shape(d, w, h),
        0 <= sx < w,
        0 <= sy < h,
        forall|x: int, y: int|
            0 <= x < w && 0 <= y < h && !(x == sx && y == sy) ==> #[trigger] g[y][x] == 0,
        forall|x: int, y: int|
            0 <= x < w && 0 <= y < h && !near_seed(x, y, sx, sy) ==> if y == h - 1 {
                !ignites_spec(x, w, (#[trigger] d[y][x]).spark as int)
            } else {
                !d[y][x].raise
            },
    ensures
        forall|x: int, y: int|
            0 <= x < w && 0 <= y < h && !near_seed(x, y, sx, sy) ==> #[trigger] next_heat(
                g,
                w,
                h,
                d,
                x,
                y,
            ) == 0,
{
    assert forall|x: int, y: int|
        0 <= x < w && 0 <= y < h && !near_seed(x, y, sx, sy) implies #[trigger] next_heat(
        g,
        w,
        h,
        d,
        x,
        y,
    ) == 0 by {
        assert(g[y][x] == 0);
        let c = d[y][x];
        if y != h - 1 {
            assert(g[y + 1][x] == 0);
            if x > 0 {
                assert(g[y][x - 1] == 0);
            }
            if x + 1 < w {
                assert(g[y][x + 1] == 0);
            }
        }
    }
}

} // verus!
