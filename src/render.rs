use vstd::prelude::*;
use crate::appearance::{
    bin_index, color_bin, glyph_and_color, glyph_bin, glyph_bin_index, glyph_candidates, CellColor,
    COLOR_BINS, GLYPH_BINS,
};
use crate::chance::draw_between;
use crate::grid::HeatGrid;

verus! {

/// What a cell of the given heat may show: a candidate of its glyph bin, in the
/// colour of its colour bin.
pub open spec fn shows(heat: u8, cell: (char, CellColor)) -> bool {
    &&& glyph_bin(bin_index(heat as int, GLYPH_BINS as int)).contains(cell.0)
    &&& cell.1 == color_bin(bin_index(heat as int, COLOR_BINS as int))
}

/// The appearance of one cell, its glyph chosen at random among its bin's candidates.
fn render_cell(heat: u8) -> (r: (char, CellColor))
    ensures
        shows(heat, r),
{
    let count = glyph_candidates(glyph_bin_index(heat)).len();
    proof {
        assert(count <= 4);
    }
    let pick = draw_between(0, (count - 1) as u32) as usize;
    let r = glyph_and_color(heat, pick);
    assert(glyph_bin(bin_index(heat as int, GLYPH_BINS as int))[pick as int] == r.0);
    r
}

impl HeatGrid {
    /// The frame to display: for each row top to bottom, the glyph and colour of
    /// each cell left to right. The grid is not changed.
    pub fn render(&self) -> (r: Vec<Vec<(char, CellColor)>>)
        requires
            self.wf(),
        ensures
            r@.len() == self.spec_height(),
            forall|y: int| 0 <= y < self.spec_height() ==> (#[trigger] r@[y])@.len() == self.spec_width(),
            forall|x: int, y: int|
                0 <= x < self.spec_width() && 0 <= y < self.spec_height() ==> shows(
                    self.heat(x, y),
                    #[trigger] r@[y]@[x],
                ),
    {
        let w = self.width();
        let h = self.height();
        let mut rows: Vec<Vec<(char, CellColor)>> = Vec::new();
        let mut y: u16 = 0;
        while y < h
            invariant
                self.wf(),
                w == self.spec_width(),
                h == self.spec_height(),
                y <= h,
                rows@.len() == y,
                forall|j: int| 0 <= j < y ==> (#[trigger] rows@[j])@.len() == w,
                forall|i: int, j: int|
                    0 <= i < w && 0 <= j < y ==> shows(self.heat(i, j), #[trigger] rows@[j]@[i]),
            decreases h - y,
        {
            let mut row: Vec<(char, CellColor)> = Vec::new();
            let mut x: u16 = 0;
            while x < w
                invariant
                    self.wf(),
                    w == self.spec_width(),
                    h == self.spec_height(),
                    y < h,
                    x <= w,
                    row@.len() == x,
                    forall|i: int| 0 <= i < x ==> shows(self.heat(i, y as int), #[trigger] row@[i]),
                decreases w - x,
            {
                row.push(render_cell(self.get(x, y)));
                x = x + 1;
            }
            rows.push(row);
            y = y + 1;
        }
        rows
    }
}

} // verus!
