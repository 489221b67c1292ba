//! A cell of the grid.

use vstd::prelude::*;
use vstd::std_specs::convert::FromSpec;
use vstd::std_specs::convert::FromSpecImpl;

verus! {

/// An integer coordinate pair on the grid. Two cells are equal when both
/// coordinates are.
#[derive(Clone, Copy, Debug, PartialEq, Eq, Structural)]
pub struct Segment {
    pub x: u32,
    pub y: u32,
}

impl Segment {
    /// The cell as a pair of mathematical integers, the form in which the
    /// fruit grid and the movement rules speak of positions.
    pub open spec fn pos(self) -> (int, int) {
        (self.x as int, self.y as int)
    }
}

impl From<(u32, u32)> for Segment {
    fn from(value: (u32, u32)) -> (cell: Self) {
        Segment { x: value.0, y: value.1 }
    }
}

impl FromSpecImpl<(u32, u32)> for Segment {
    open spec fn obeys_from_spec() -> bool {
        true
    }

    open spec fn from_spec(value: (u32, u32)) -> Self {
        Segment { x: value.0, y: value.1 }
    }
}

impl From<Segment> for (u32, u32) {
    fn from(value: Segment) -> (pair: Self) {
        (value.x, value.y)
    }
}

impl FromSpecImpl<Segment> for (u32, u32) {
    open spec fn obeys_from_spec() -> bool {
        true
    }

    open spec fn from_spec(value: Segment) -> Self {
        (value.x, value.y)
    }
}

/// Converting a cell to a pair and back gives the cell again, and the
/// other way round.
pub proof fn lemma_pair_round_trip(cell: Segment, pair: (u32, u32))
    ensures
        <Segment as FromSpec<(u32, u32)>>::from_spec(
            <(u32, u32) as FromSpec<Segment>>::from_spec(cell),
        ) == cell,
        <(u32, u32) as FromSpec<Segment>>::from_spec(
            <Segment as FromSpec<(u32, u32)>>::from_spec(pair),
        ) == pair,
{
}

} // verus!
