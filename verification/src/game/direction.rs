//! Compass directions on the grid.

use vstd::prelude::*;
use crate::game::key::Key;
use crate::game::segment::Segment;

verus! {

/// A direction of movement. `Rest` stands for no movement.
///
/// The y axis points down: `Up` lowers y, `Down` raises it.
#[derive(Clone, Copy, Debug, PartialEq, Eq, Structural)]
pub enum Direction {
    Up,
    Down,
    Left,
    Right,
    Rest,
}

impl Direction {
    /// The direction with Up and Down swapped and Left and Right swapped.
    pub open spec fn opposite(&self) -> Direction {
        match *self {
            Direction::Up => Direction::Down,
            Direction::Down => Direction::Up,
            Direction::Left => Direction::Right,
            Direction::Right => Direction::Left,
            Direction::Rest => Direction::Rest,
        }
    }

    /// The unit step of this direction, as (dx, dy).
    pub open spec fn offset(&self) -> (int, int) {
        match *self {
            Direction::Up => (0, -1),
            Direction::Down => (0, 1),
            Direction::Left => (-1, 0),
            Direction::Right => (1, 0),
            Direction::Rest => (0, 0),
        }
    }

    /// The position one step from `from` in this direction.
    pub open spec fn step(&self, from: (int, int)) -> (int, int) {
        (from.0 + self.offset().0, from.1 + self.offset().1)
    }

    /// The direction that leads from `u` to `v`. A difference in y decides
    /// before a difference in x; equal cells give `Rest`.
    pub open spec fn between(u: Segment, v: Segment) -> Direction {
        if v.y < u.y {
            Direction::Up
        } else if v.y > u.y {
            Direction::Down
        } else if v.x < u.x {
            Direction::Left
        } else if v.x > u.x {
            Direction::Right
        } else {
            Direction::Rest
        }
    }

    /// The direction of a key, where the key is one of the four arrows.
    pub open spec fn of_key(key: Key) -> Option<Direction> {
        match key {
            Key::Up => Some(Direction::Up),
            Key::Down => Some(Direction::Down),
            Key::Left => Some(Direction::Left),
            Key::Right => Some(Direction::Right),
            _ => None,
        }
    }

    /// Derives the direction from a cell `u` to a cell `v`.
    pub fn new(u: &Segment, v: &Segment) -> (d: Self)
        ensures
            d == Self::between(*u, *v),
            d == Direction::Up <==> v.y < u.y,
            d == Direction::Down <==> v.y > u.y,
            d == Direction::Left <==> v.y == u.y && v.x < u.x,
            d == Direction::Right <==> v.y == u.y && v.x > u.x,
            d == Direction::Rest <==> *u == *v,
    {
        if v.y < u.y {
            Direction::Up
        } else if v.y > u.y {
            Direction::Down
        } else if v.x < u.x {
            Direction::Left
        } else if v.x > u.x {
            Direction::Right
        } else {
            Direction::Rest
        }
    }

    /// The opposite direction; `Rest` is its own opposite.
    #[verifier::when_used_as_spec(opposite)]
    pub fn inverse(&self) -> (d: Self)
        ensures
            d == self.opposite(),
    {
        match self {
            Direction::Up => Direction::Down,
            Direction::Down => Direction::Up,
            Direction::Left => Direction::Right,
            Direction::Right => Direction::Left,
            Direction::Rest => Direction::Rest,
        }
    }

    /// Maps the four arrow keys to their directions. Any other key gives
    /// `None`, which is no error: the caller ignores the key.
    pub fn from_keycode(key_code: Key) -> (d: Option<Self>)
        ensures
            d == Self::of_key(key_code),
            d.is_some() <==> key_code == Key::Up || key_code == Key::Down || key_code
                == Key::Left || key_code == Key::Right,
            d != Some(Direction::Rest),
    {
        match key_code {
            Key::Up => Some(Direction::Up),
            Key::Down => Some(Direction::Down),
            Key::Left => Some(Direction::Left),
            Key::Right => Some(Direction::Right),
            _ => None,
        }
    }
}

/// Inverting twice gives the direction back, `Rest` is the only direction
/// that is its own inverse, and the steps of a direction and of its inverse
/// cancel.
pub proof fn lemma_inverse_involutive(d: Direction)
    ensures
        d.opposite().opposite() == d,
        d.opposite() == d <==> d == Direction::Rest,
        d.opposite().step(d.step((0, 0))) == (0int, 0int),
{
}

/// A cell and the cell one step from it in a direction give that direction
/// back.
pub proof fn lemma_between_recovers_step(u: Segment, v: Segment, d: Direction)
    requires
        v.pos() == d.step(u.pos()),
    ensures
        Direction::between(u, v) == d,
{
}

} // verus!
