//! A square board of marks, the store behind the fruit grid and behind the
//! record of the cells that the snake lies on.

use vstd::prelude::*;
use crate::game::segment::Segment;

verus! {

/// The order in which cells are listed: by x, then by y.
pub open spec fn listed_before(a: Segment, b: Segment) -> bool {
    a.x < b.x || (a.x == b.x && a.y < b.y)
}

/// An `n` by `n` board on which cells are marked or not.
///
/// Its view is the set of the positions that are marked.
pub struct Board {
    marks: Vec<Vec<bool>>,
    n: u32,
}

impl View for Board {
    type V = Set<(int, int)>;

    closed spec fn view(&self) -> Set<(int, int)> {
        Set::new(
            |c: (int, int)|
                0 <= c.0 < self.marks.len() && 0 <= c.1 < self.marks[c.0].len()
                    && self.marks[c.0][c.1],
        )
    }
}

impl Board {
    /// The side length of the board.
    pub closed spec fn spec_size(&self) -> u32 {
        self.n
    }

    /// The board has `n` columns of `n` cells each.
    pub closed spec fn shaped(&self) -> bool {
        &&& self.marks.len() == self.n
        &&& forall|i: int| 0 <= i < self.marks.len() ==> (#[trigger] self.marks[i]).len() == self.n
    }

    /// Whether position `c` lies on the board.
    pub open spec fn covers(&self, c: (int, int)) -> bool {
        0 <= c.0 < self.spec_size() && 0 <= c.1 < self.spec_size()
    }

    /// The invariant of the board: it is square, and every mark lies on it.
    pub open spec fn wf(&self) -> bool {
        &&& self.shaped()
        &&& forall|c: (int, int)| self@.contains(c) ==> self.covers(c)
    }

    /// A board of `n` by `n` cells without any mark.
    pub fn new(n: u32) -> (board: Self)
        ensures
            board.wf(),
            board.size() == n,
            board@ == Set::<(int, int)>::empty(),
    {
        let side = n as usize;
        let mut marks: Vec<Vec<bool>> = Vec::new();
        let mut i: usize = 0;
        while i < side
            invariant
                i <= side,
                side == n,
                marks.len() == i,
                forall|k: int| 0 <= k < i ==> (#[trigger] marks[k]).len() == side,
                forall|k: int, j: int| 0 <= k < i && 0 <= j < side ==> !(#[trigger] marks[k][j]),
            decreases side - i,
        {
            let mut column: Vec<bool> = Vec::new();
            let mut j: usize = 0;
            while j < side
                invariant
                    j <= side,
                    column.len() == j,
                    forall|k: int| 0 <= k < j ==> !(#[trigger] column[k]),
                decreases side - j,
            {
                column.push(false);
                j += 1;
            }
            marks.push(column);
            i += 1;
        }
        let board = Board { marks, n };
        board
    }

    /// The side length of the board.
    #[verifier::when_used_as_spec(spec_size)]
    pub fn size(&self) -> (n: u32)
        ensures
            n == self.spec_size(),
    {
        self.n
    }

    /// Whether the cell at (`x`, `y`) is marked. A position off the board
    /// is not.
    pub fn holds(&self, x: usize, y: usize) -> (marked: bool)
        requires
            self.wf(),
        ensures
            marked == self@.contains((x as int, y as int)),
    {
        x < self.marks.len() && y < self.marks[x].len() && self.marks[x][y]
    }

    /// Marks the cell at (`x`, `y`) and says whether it lies on the board.
    /// A position off the board is not marked, and the board stays as it is.
    pub fn put(&mut self, x: usize, y: usize) -> (done: bool)
        requires
            old(self).wf(),
        ensures
            final(self).wf(),
            final(self).size() == old(self).size(),
            done == old(self).covers((x as int, y as int)),
            done ==> final(self)@ == old(self)@.insert((x as int, y as int)),
            !done ==> final(self)@ == old(self)@,
    {
        if x < self.marks.len() && y < self.marks[x].len() {
            self.marks[x][y] = true;
            true
        } else {
            false
        }
    }

    /// Takes the mark off the cell at (`x`, `y`) and says whether there was
    /// one. A position without a mark, on the board or off it, gives `false`
    /// and leaves the board as it is.
    pub fn take(&mut self, x: usize, y: usize) -> (was: bool)
        requires
            old(self).wf(),
        ensures
            final(self).wf(),
            final(self).size() == old(self).size(),
            was == old(self)@.contains((x as int, y as int)),
            final(self)@ == old(self)@.remove((x as int, y as int)),
    {
        if x < self.marks.len() && y < self.marks[x].len() {
            let was = self.marks[x][y];
            self.marks[x][y] = false;
            was
        } else {
            false
        }
    }

    /// The marked cells, each once, ordered by x and then by y.
    pub fn cells(&self) -> (cells: Vec<Segment>)
        requires
            self.wf(),
        ensures
            forall|c: Segment| cells@.contains(c) <==> self@.contains(c.pos()),
            forall|k: int, l: int|
                0 <= k < l < cells.len() ==> listed_before(#[trigger] cells[k], #[trigger] cells[l]),
    {
        let mut cells: Vec<Segment> = Vec::new();
        let mut i: u32 = 0;
        while i < self.n
            invariant
                self.wf(),
                i <= self.n,
                forall|k: int|
                    0 <= k < cells.len() ==> (#[trigger] cells[k]).x < i && self@.contains(
                        cells[k].pos(),
                    ),
                forall|c: Segment| c.x < i && self@.contains(c.pos()) ==> cells@.contains(c),
                forall|k: int, l: int|
                    0 <= k < l < cells.len() ==> listed_before(
                        #[trigger] cells[k],
                        #[trigger] cells[l],
                    ),
            decreases self.n - i,
        {
            let mut j: u32 = 0;
            while j < self.n
                invariant
                    self.wf(),
                    i < self.n,
                    j <= self.n,
                    forall|k: int|
                        0 <= k < cells.len() ==> self@.contains((#[trigger] cells[k]).pos()) && (
                        cells[k].x < i || (cells[k].x == i && cells[k].y < j)),
                    forall|c: Segment|
                        (c.x < i || (c.x == i && c.y < j)) && self@.contains(c.pos())
                            ==> cells@.contains(c),
                    forall|k: int, l: int|
                        0 <= k < l < cells.len() ==> listed_before(
                            #[trigger] cells[k],
                            #[trigger] cells[l],
                        ),
                decreases self.n - j,
            {
                if self.marks[i as usize][j as usize] {
                    let ghost before = cells@;
                    let cell = Segment { x: i, y: j };
                    cells.push(cell);
                    proof {
                        assert forall|c: Segment|
                            (c.x < i || (c.x == i && c.y < j + 1)) && self@.contains(
                                c.pos(),
                            ) implies cells@.contains(c) by {
                            if c == cell {
                                assert(cells@[before.len() as int] == c);
                            } else {
                                assert(before.contains(c));
                                let k = choose|k: int| 0 <= k < before.len() && before[k] == c;
                                assert(cells@[k] == c);
                            }
                        }
                    }
                }
                j += 1;
            }
            i += 1;
        }
        proof {
            assert forall|c: Segment| cells@.contains(c) implies self@.contains(c.pos()) by {
                let k = choose|k: int| 0 <= k < cells.len() && cells[k] == c;
                assert(self@.contains(cells[k].pos()));
            }
        }
        cells
    }
}

} // verus!
