//! The fruit board.

use vstd::prelude::*;
use rand::rngs::ThreadRng;
use crate::game::board::{listed_before, Board};
use crate::game::random::gen_range;
use crate::game::segment::Segment;

verus! {

/// Whether position `c` lies in the interior of a grid of `n` by `n` cells,
/// that is strictly inside the outermost ring.
pub open spec fn interior(n: int, c: (int, int)) -> bool {
    1 <= c.0 <= n - 2 && 1 <= c.1 <= n - 2
}

/// Whether position `c` lies on the outermost ring of a grid of `n` by `n`
/// cells.
pub open spec fn on_ring(n: int, c: (int, int)) -> bool {
    c.0 == 0 || c.0 == n - 1 || c.1 == 0 || c.1 == n - 1
}

/// A rectangle of cells: its corner nearest the origin, its width and its
/// height, all counted in cells.
#[derive(Clone, Copy, Debug, PartialEq, Eq, Structural)]
pub struct CellRect {
    pub x: u32,
    pub y: u32,
    pub w: u32,
    pub h: u32,
}

impl CellRect {
    /// Whether position `c` lies in the rectangle.
    pub open spec fn covers(self, c: (int, int)) -> bool {
        self.x <= c.0 < self.x + self.w && self.y <= c.1 < self.y + self.h
    }
}

/// The border of a grid of `n` cells to a side as four bars: the top row,
/// the bottom row, the left column and the right column.
pub open spec fn border_bars(n: u32) -> Seq<CellRect> {
    seq![
        CellRect { x: 0, y: 0, w: n, h: 1 },
        CellRect { x: 0, y: (n - 1) as u32, w: n, h: 1 },
        CellRect { x: 0, y: 0, w: 1, h: n },
        CellRect { x: (n - 1) as u32, y: 0, w: 1, h: n },
    ]
}

/// An `n` by `n` board that records which cells hold a fruit.
///
/// Its view is the set of positions that hold a fruit.
pub struct Grid {
    fruits: Board,
}

impl View for Grid {
    type V = Set<(int, int)>;

    closed spec fn view(&self) -> Set<(int, int)> {
        self.fruits@
    }
}

impl Grid {
    /// The side length of the board.
    pub closed spec fn spec_size(&self) -> u32 {
        self.fruits.size()
    }

    /// The store behind the grid is sound.
    pub closed spec fn shaped(&self) -> bool {
        self.fruits.wf()
    }

    /// The invariant of the grid: it is square, and fruit lies on interior
    /// cells only.
    pub open spec fn wf(&self) -> bool {
        &&& self.shaped()
        &&& forall|c: (int, int)| self@.contains(c) ==> interior(self.spec_size() as int, c)
    }

    /// A grid of `n` by `n` cells without any fruit.
    pub fn new(n: u32) -> (grid: Self)
        ensures
            grid.wf(),
            grid.size() == n,
            grid@ == Set::<(int, int)>::empty(),
    {
        Grid { fruits: Board::new(n) }
    }

    /// The side length of the grid.
    #[verifier::when_used_as_spec(spec_size)]
    pub fn size(&self) -> (n: u32)
        ensures
            n == self.spec_size(),
    {
        self.fruits.size()
    }

    /// The border of the grid as four bars of cells, for a shell to draw:
    /// top, bottom, left and right. A grid without cells has no border.
    pub fn border(&self) -> (bars: [CellRect; 4])
        requires
            self.size() >= 1,
        ensures
            bars@ == border_bars(self.size()),
    {
        let n = self.fruits.size();
        [
            CellRect { x: 0, y: 0, w: n, h: 1 },
            CellRect { x: 0, y: n - 1, w: n, h: 1 },
            CellRect { x: 0, y: 0, w: 1, h: n },
            CellRect { x: n - 1, y: 0, w: 1, h: n },
        ]
    }

    /// Whether the cell at (`x`, `y`) holds a fruit. A position off the grid
    /// holds none.
    pub fn has_fruit(&self, x: usize, y: usize) -> (found: bool)
        requires
            self.wf(),
        ensures
            found == self@.contains((x as int, y as int)),
    {
        self.fruits.holds(x, y)
    }

    /// The cells that hold a fruit, each once, ordered by x and then by y.
    pub fn fruit_cells(&self) -> (cells: Vec<Segment>)
        requires
            self.wf(),
        ensures
            forall|c: Segment| cells@.contains(c) <==> self@.contains(c.pos()),
            forall|k: int, l: int|
                0 <= k < l < cells.len() ==> listed_before(#[trigger] cells[k], #[trigger] cells[l]),
    {
        self.fruits.cells()
    }

    /// Puts a fruit on the cell at (`x`, `y`) if that cell lies in the
    /// interior, and says whether it did. A cell that already holds a fruit
    /// keeps it: the grid does not change.
    pub fn place_fruit(&mut self, x: u32, y: u32) -> (placed: bool)
        requires
            old(self).wf(),
        ensures
            final(self).wf(),
            final(self).size() == old(self).size(),
            placed == interior(old(self).size() as int, (x as int, y as int)),
            placed ==> final(self)@ == old(self)@.insert((x as int, y as int)),
            !placed ==> final(self)@ == old(self)@,
    {
        let n = self.fruits.size();
        if 1 <= x && 1 <= y && n >= 2 && x <= n - 2 && y <= n - 2 {
            let placed = self.fruits.put(x as usize, y as usize);
            proof {
                assert forall|c: (int, int)| self@.contains(c) implies interior(n as int, c) by {
                    if c != (x as int, y as int) {
                        assert(old(self)@.contains(c));
                    }
                }
            }
            placed
        } else {
            false
        }
    }

    /// Puts a fruit on an interior cell drawn at random, both coordinates
    /// from 1 to `n - 2`. The cell may hold a fruit already; the grid is
    /// then unchanged. The grid must have an interior to draw from.
    pub fn gen_fruit(&mut self, rng: &mut ThreadRng)
        requires
            old(self).wf(),
            old(self).size() >= 3,
        ensures
            final(self).wf(),
            final(self).size() == old(self).size(),
            exists|c: (int, int)|
                interior(old(self).size() as int, c)
                    && final(self)@ == #[trigger] old(self)@.insert(c),
    {
        let n = self.fruits.size();
        let x = gen_range(rng, 1, n - 2);
        let y = gen_range(rng, 1, n - 2);
        self.place_fruit(x, y);
    }

    /// Takes the fruit at (`x`, `y`) off the grid and says whether there was
    /// one. A position without fruit, on the grid or off it, gives `false`
    /// and leaves the grid as it is.
    pub fn eat(&mut self, x: usize, y: usize) -> (got: bool)
        requires
            old(self).wf(),
        ensures
            final(self).wf(),
            final(self).size() == old(self).size(),
            got == old(self)@.contains((x as int, y as int)),
            final(self)@ == old(self)@.remove((x as int, y as int)),
    {
        let got = self.fruits.take(x, y);
        proof {
            assert forall|c: (int, int)| self@.contains(c) implies interior(
                self.size() as int,
                c,
            ) by {
                assert(old(self)@.contains(c));
            }
        }
        got
    }
}

/// On a grid, the interior is what the outermost ring leaves.
pub proof fn lemma_interior_is_off_the_ring(n: int, c: (int, int))
    requires
        0 <= c.0 < n,
        0 <= c.1 < n,
    ensures
        interior(n, c) <==> !on_ring(n, c),
{
}

/// The four bars of the border cover the outermost ring of the grid and no
/// other cell of it.
pub proof fn lemma_bars_cover_the_ring(n: u32, c: (int, int))
    requires
        n >= 1,
        0 <= c.0 < n,
        0 <= c.1 < n,
    ensures
        on_ring(n as int, c) <==> exists|k: int|
            0 <= k < 4 && (#[trigger] border_bars(n)[k]).covers(c),
{
    let bars = border_bars(n);
    if c.1 == 0 {
        assert(bars[0].covers(c));
    } else if c.1 == n - 1 {
        assert(bars[1].covers(c));
    } else if c.0 == 0 {
        assert(bars[2].covers(c));
    } else if c.0 == n - 1 {
        assert(bars[3].covers(c));
    }
}

/// Eating twice: once the fruit of a cell is taken, a second bite at the same
/// cell finds nothing and changes nothing; and a bite at a cell without fruit
/// changes nothing either.
pub proof fn lemma_eat_twice(fruit: Set<(int, int)>, c: (int, int))
    ensures
        !fruit.remove(c).contains(c),
        fruit.remove(c).remove(c) == fruit.remove(c),
        !fruit.contains(c) ==> fruit.remove(c) == fruit,
{
}

} // verus!
