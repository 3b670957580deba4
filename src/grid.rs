use vstd::prelude::*;

verus! {

/// The heat state: `height` rows of `width` cells, each a heat value in `0..=255`.
/// Row 0 is the top of the flame; row `height - 1` is the source row.
pub struct HeatGrid {
    pub(crate) width: u16,
    pub(crate) height: u16,
    pub(crate) cells: Vec<Vec<u8>>,
}

/// A grid of the given size with every cell cold.
pub open spec fn zero_grid(w: int, h: int) -> Seq<Seq<u8>> {
    Seq::new(h as nat, |y: int| Seq::new(w as nat, |x: int| 0u8))
}

impl View for HeatGrid {
    type V = Seq<Seq<u8>>;

    closed spec fn view(&self) -> Seq<Seq<u8>> {
        self.cells@.map_values(|row: Vec<u8>| row@)
    }
}

impl HeatGrid {
    pub closed spec fn spec_width(&self) -> int {
        self.width as int
    }

    pub closed spec fn spec_height(&self) -> int {
        self.height as int
    }

    /// The rows and columns agree with the stated dimensions.
    pub open spec fn wf(&self) -> bool {
        &&& self@.len() == self.spec_height()
        &&& forall|y: int| 0 <= y < self.spec_height() ==> #[trigger] self@[y].len() == self.spec_width()
    }

    /// The value of cell `(x, y)` in the model.
    pub open spec fn heat(&self, x: int, y: int) -> u8 {
        self@[y][x]
    }

    proof fn lemma_view_rows(&self)
        ensures
            self@.len() == self.cells@.len(),
            forall|y: int| 0 <= y < self.cells@.len() ==> #[trigger] self@[y] == self.cells@[y]@,
    {
    }

    fn zeroed_rows(width: u16, height: u16) -> (r: Vec<Vec<u8>>)
        ensures
            r@.map_values(|row: Vec<u8>| row@) == zero_grid(width as int, height as int),
    {
        let mut rows: Vec<Vec<u8>> = Vec::new();
        let mut y: u16 = 0;
        while y < height
            invariant
                y <= height,
                rows@.len() == y,
                forall|j: int| 0 <= j < y ==> #[trigger] rows@[j]@ == Seq::new(width as nat, |x: int| 0u8),
            decreases height - y,
        {
            let mut row: Vec<u8> = Vec::new();
            let mut x: u16 = 0;
            while x < width
                invariant
                    x <= width,
                    row@ == Seq::new(x as nat, |i: int| 0u8),
                decreases width - x,
            {
                row.push(0);
                x = x + 1;
                assert(row@ =~= Seq::new(x as nat, |i: int| 0u8));
            }
            rows.push(row);
            y = y + 1;
        }
        assert(rows@.map_values(|row: Vec<u8>| row@) =~= zero_grid(width as int, height as int));
        rows
    }

    /// A grid holding the given rows.
    pub(crate) fn from_rows(width: u16, height: u16, cells: Vec<Vec<u8>>) -> (r: HeatGrid)
        requires
            cells@.len() == height,
            forall|y: int| 0 <= y < height ==> (#[trigger] cells@[y])@.len() == width,
        ensures
            r.wf(),
            r.spec_width() == width,
            r.spec_height() == height,
            r@ == cells@.map_values(|row: Vec<u8>| row@),
    {
        let r = HeatGrid { width, height, cells };
        proof {
            r.lemma_view_rows();
            assert forall|y: int| 0 <= y < r.spec_height() implies #[trigger] r@[y].len() == r.spec_width() by {
                assert(r@[y] == r.cells@[y]@);
            }
        }
        r
    }

    /// A cold grid of the given size.
    pub fn new(width: u16, height: u16) -> (r: HeatGrid)
        ensures
            r.wf(),
            r.spec_width() == width,
            r.spec_height() == height,
            r@ == zero_grid(width as int, height as int),
    {
        HeatGrid { width, height, cells: Self::zeroed_rows(width, height) }
    }

    pub fn width(&self) -> (r: u16)
        ensures
            r == self.spec_width(),
    {
        self.width
    }

    pub fn height(&self) -> (r: u16)
        ensures
            r == self.spec_height(),
    {
        self.height
    }

    /// Matches the grid to a drawable area. A change of either dimension discards
    /// all heat; the same dimensions leave the grid as it was.
    pub fn reset(&mut self, width: u16, height: u16)
        requires
            old(self).wf(),
        ensures
            final(self).wf(),
            final(self).spec_width() == width,
            final(self).spec_height() == height,
            (width == old(self).spec_width() && height == old(self).spec_height()) ==> final(self)@
                == old(self)@,
            (width != old(self).spec_width() || height != old(self).spec_height()) ==> final(self)@
                == zero_grid(width as int, height as int),
    {
        if self.width != width || self.height != height {
            *self = HeatGrid::new(width, height);
        }
    }

    /// The heat of cell `(x, y)`.
    pub fn get(&self, x: u16, y: u16) -> (r: u8)
        requires
            self.wf(),
            x < self.spec_width(),
            y < self.spec_height(),
        ensures
            r == self.heat(x as int, y as int),
    {
        proof {
            self.lemma_view_rows();
            assert(self@[y as int] == self.cells@[y as int]@);
        }
        self.cells[y as usize][x as usize]
    }
}

} // verus!
