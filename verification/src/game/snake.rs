//! The snake.

use vstd::prelude::*;
use std::collections::VecDeque;
use crate::game::board::Board;
use crate::game::clock::{elapsed, elapsed_since};
use crate::game::config::{check_config, config_fault, playable, ConfigError};
use crate::game::direction::Direction;
use crate::game::grid::Grid;
use crate::game::motion::{
    lemma_positions_grow, lemma_positions_hold_cells, lemma_positions_shrink,
    lemma_tick_preserves_wf, linked, positions, SnakeState, Ticked, TickOutcome,
};
use crate::game::segment::Segment;

verus! {

/// The turns that wait in two slots, of which the first is filled first.
pub open spec fn queue_of(first: Option<Direction>, second: Option<Direction>) -> Seq<Direction> {
    match (first, second) {
        (Some(a), Some(b)) => seq![a, b],
        (Some(a), None) => seq![a],
        (None, _) => Seq::empty(),
    }
}

/// The snake: its body on the grid, the direction it moves in, the turns
/// that wait to be committed, and the time of its last step.
///
/// Its view is the `SnakeState` that the rules of movement speak of.
pub struct Snake {
    body: VecDeque<Segment>,
    occupied: Board,
    last_tail: Segment,
    dir: Direction,
    next_dir: [Option<Direction>; 2],
    n: u32,
    last_step_time: u64,
    step_time: u64,
    turn_time: u64,
    alive: bool,
}

impl View for Snake {
    type V = SnakeState;

    closed spec fn view(&self) -> SnakeState {
        SnakeState {
            body: self.body@,
            last_tail: self.last_tail,
            dir: self.dir,
            pending: queue_of(self.next_dir[0], self.next_dir[1]),
            size: self.n,
            last_step: self.last_step_time,
            step_time: self.step_time,
            turn_time: self.turn_time,
            alive: self.alive,
        }
    }
}

impl Snake {
    /// What holds of the parts of the snake beside its state: the second
    /// slot of the waiting turns is filled only behind a filled first one,
    /// and the board of occupied cells marks the cells of the body and no
    /// others.
    pub closed spec fn sound(&self) -> bool {
        &&& self.next_dir[0] is None ==> self.next_dir[1] is None
        &&& self.occupied.wf()
        &&& self.occupied.size() == self.n
        &&& self.occupied@ == positions(self.body@)
    }

    /// The invariant of the snake: that of its state, and that of its parts.
    pub open spec fn wf(&self) -> bool {
        self@.wf() && self.sound()
    }

    /// A snake of two cells in the middle column near the bottom of a grid of
    /// `n` cells to a side, heading up, as of time `now`. A configuration
    /// that cannot be played is turned down with its first fault.
    pub fn new(n: u32, step_time: u64, turn_time: u64, now: u64) -> (made: Result<
        Self,
        ConfigError,
    >)
        ensures
            made.is_ok() <==> playable(n, step_time, turn_time),
            made matches Ok(snake) ==> snake.wf() && snake@ == SnakeState::initial(
                n,
                step_time,
                turn_time,
                now,
            ),
            made matches Err(fault) ==> config_fault(n, step_time, turn_time) == Some(fault),
    {
        match check_config(n, step_time, turn_time) {
            Err(fault) => Err(fault),
            Ok(()) => {
                let head = Segment { x: n / 2, y: n - 4 };
                let tail = Segment { x: n / 2, y: n - 3 };
                let mut body: VecDeque<Segment> = VecDeque::new();
                let mut occupied = Board::new(n);
                body.push_front(tail);
                occupied.put(tail.x as usize, tail.y as usize);
                proof {
                    lemma_positions_grow(Seq::empty(), tail);
                    assert(positions(Seq::<Segment>::empty()) =~= Set::<(int, int)>::empty());
                }
                body.push_front(head);
                occupied.put(head.x as usize, head.y as usize);
                proof {
                    lemma_positions_grow(seq![tail], head);
                }
                let snake = Snake {
                    body,
                    occupied,
                    last_tail: Segment { x: n / 2, y: n - 2 },
                    dir: Direction::Up,
                    next_dir: [None, None],
                    n,
                    last_step_time: now,
                    step_time,
                    turn_time,
                    alive: true,
                };
                Ok(snake)
            },
        }
    }

    /// The newest direction asked for, or the committed one where no turn
    /// waits.
    fn last_dir(&self) -> (d: Direction)
        requires
            self.wf(),
        ensures
            d == self@.heading(),
    {
        match self.next_dir[1] {
            Some(d) => d,
            None => match self.next_dir[0] {
                Some(d) => d,
                None => self.dir,
            },
        }
    }

    /// Asks the snake to turn to `dir` and says whether the request was taken
    /// up. A request that is taken up waits behind the ones before it until a
    /// tick commits it; one that is turned down changes nothing.
    pub fn trun(&mut self, dir: Direction) -> (accepted: bool)
        requires
            old(self).wf(),
        ensures
            final(self).wf(),
            accepted == old(self)@.accepts(dir),
            final(self)@ == old(self)@.turn(dir),
    {
        let last = self.last_dir();
        let reverses = dir == last.inverse() && (self.next_dir[0].is_some() || self.body.len()
            > 1);
        if self.next_dir[1].is_some() || dir == last || reverses {
            return false;
        }
        if self.next_dir[0].is_none() {
            self.next_dir[0] = Some(dir);
        } else {
            self.next_dir[1] = Some(dir);
        }
        true
    }

    /// Whether the body lies on the cell at (`x`, `y`). The answer comes
    /// from the board of occupied cells, without a walk along the body.
    pub fn occupies(&self, x: u32, y: u32) -> (found: bool)
        requires
            self.wf(),
        ensures
            found == self@.body.contains(Segment { x, y }),
    {
        proof {
            lemma_positions_hold_cells(self.body@, Segment { x, y });
        }
        self.occupied.holds(x as usize, y as usize)
    }

    /// A tick that takes effect once `wait` milliseconds have passed since
    /// the last one.
    fn tick(&mut self, map: &mut Grid, now: u64, wait: u64) -> (outcome: TickOutcome)
        requires
            old(self).wf(),
            old(map).wf(),
        ensures
            final(self).wf(),
            final(map).wf(),
            final(map).size() == old(map).size(),
            (Ticked { snake: final(self)@, fruit: final(map)@, outcome }) == old(self)@.tick(
                old(map)@,
                now,
                wait,
            ),
    {
        proof {
            lemma_tick_preserves_wf(old(self)@, old(map)@, now, wait);
        }
        if !self.alive {
            return TickOutcome::Died;
        }
        if elapsed(self.last_step_time, now) < wait {
            return TickOutcome::Continuing;
        }
        if let Some(dir) = self.next_dir[0] {
            self.dir = dir;
            self.next_dir[0] = self.next_dir[1];
            self.next_dir[1] = None;
        }

        let head = self.body[0];
        let mut x = head.x;
        let mut y = head.y;
        match self.dir {
            Direction::Up => y -= 1,
            Direction::Down => y += 1,
            Direction::Left => x -= 1,
            Direction::Right => x += 1,
            Direction::Rest => (),
        }
        self.last_tail = self.body[self.body.len() - 1];
        self.last_step_time = now;

        let cell = Segment { x, y };
        if x <= 0 || x >= self.n - 1 || y <= 0 || y >= self.n - 1 || self.occupies(x, y) {
            self.alive = false;
            return TickOutcome::Died;
        }
        let got = map.eat(x as usize, y as usize);
        if !got {
            proof {
                lemma_positions_shrink(self.body@);
            }
            self.body.pop_back();
            self.occupied.take(self.last_tail.x as usize, self.last_tail.y as usize);
        }
        proof {
            lemma_positions_grow(self.body@, cell);
        }
        self.body.push_front(cell);
        self.occupied.put(x as usize, y as usize);
        TickOutcome::Moved
    }

    /// Attempts a step at time `now`. Nothing happens before `step_time` has
    /// passed since the last tick that took effect; see `SnakeState::tick`
    /// for what happens then.
    pub fn next(&mut self, map: &mut Grid, now: u64) -> (outcome: TickOutcome)
        requires
            old(self).wf(),
            old(map).wf(),
        ensures
            final(self).wf(),
            final(map).wf(),
            final(map).size() == old(map).size(),
            (Ticked { snake: final(self)@, fruit: final(map)@, outcome }) == old(self)@.tick(
                old(map)@,
                now,
                old(self)@.step_time,
            ),
    {
        let wait = self.step_time;
        self.tick(map, now, wait)
    }

    /// Attempts a step at time `now` that waits for `turn_time` only.
    /// A shell calls it right after a turn was taken up, so that the snake
    /// answers the key at once; but for the shorter wait it is `next`.
    pub fn next_turn(&mut self, map: &mut Grid, now: u64) -> (outcome: TickOutcome)
        requires
            old(self).wf(),
            old(map).wf(),
        ensures
            final(self).wf(),
            final(map).wf(),
            final(map).size() == old(map).size(),
            (Ticked { snake: final(self)@, fruit: final(map)@, outcome }) == old(self)@.tick(
                old(map)@,
                now,
                old(self)@.turn_time,
            ),
    {
        let wait = self.turn_time;
        self.tick(map, now, wait)
    }

    /// The cells of the body from index `from` on, in order.
    fn cells_from(&self, from: usize) -> (cells: Vec<Segment>)
        requires
            from <= self@.body.len(),
        ensures
            cells@ == self@.body.skip(from as int),
    {
        let mut cells: Vec<Segment> = Vec::new();
        let mut i: usize = from;
        while i < self.body.len()
            invariant
                from <= i <= self.body@.len(),
                cells@ == self.body@.subrange(from as int, i as int),
            decreases self.body@.len() - i,
        {
            cells.push(self.body[i]);
            i += 1;
        }
        cells
    }

    /// The cells of the body, head first.
    pub fn cells(&self) -> (cells: Vec<Segment>)
        ensures
            cells@ == self@.body,
    {
        self.cells_from(0)
    }

    /// The number of cells of the body.
    pub fn len(&self) -> (count: usize)
        ensures
            count == self@.body.len(),
    {
        self.body.len()
    }

    /// The cell of the head.
    pub fn head(&self) -> (cell: Segment)
        requires
            self.wf(),
        ensures
            cell == self@.body[0],
    {
        self.body[0]
    }

    /// The committed direction.
    pub fn direction(&self) -> (dir: Direction)
        ensures
            dir == self@.dir,
    {
        self.dir
    }

    /// The turns that wait to be committed, oldest first.
    pub fn pending(&self) -> (turns: Vec<Direction>)
        requires
            self.wf(),
        ensures
            turns@ == self@.pending,
    {
        let mut turns: Vec<Direction> = Vec::new();
        if let Some(first) = self.next_dir[0] {
            turns.push(first);
            if let Some(second) = self.next_dir[1] {
                turns.push(second);
            }
        }
        turns
    }

    /// Whether the snake is alive.
    pub fn is_alive(&self) -> (alive: bool)
        ensures
            alive == self@.alive,
    {
        self.alive
    }

    /// The cell that the tail left at the last tick that took effect.
    pub fn last_tail(&self) -> (cell: Segment)
        ensures
            cell == self@.last_tail,
    {
        self.last_tail
    }

    /// The time of the last tick that took effect.
    pub fn last_step_time(&self) -> (time: u64)
        ensures
            time == self@.last_step,
    {
        self.last_step_time
    }

    /// The time that is left at `now` until the next step is due, zero where
    /// it is due already. A shell that sleeps between ticks sleeps this long,
    /// so that a tick that came late does not delay the ones after it.
    pub fn time_until_step(&self, now: u64) -> (wait: u64)
        ensures
            wait == if elapsed_since(self@.last_step, now) < self@.step_time {
                self@.step_time - elapsed_since(self@.last_step, now)
            } else {
                0
            },
    {
        let passed = elapsed(self.last_step_time, now);
        if passed >= self.step_time {
            0
        } else {
            self.step_time - passed
        }
    }

    /// The cells that a shell draws where they are: the body without the
    /// head, which `head_glide` places.
    pub fn still_cells(&self) -> (cells: Vec<Segment>)
        requires
            self.wf(),
        ensures
            cells@ == self@.body.drop_first(),
    {
        self.cells_from(1)
    }

    /// Where a shell draws the moving head between two steps: the cell
    /// behind the head, from which the head glides, and the direction of the
    /// glide, which leads from that cell to the head and is never `Rest`.
    pub fn head_glide(&self) -> (glide: (Segment, Direction))
        requires
            self.wf(),
        ensures
            glide.0 == self@.body[1],
            glide.1 == Direction::between(self@.body[1], self@.body[0]),
            glide.1 != Direction::Rest,
            glide.1.step(glide.0.pos()) == self@.body[0].pos(),
    {
        proof {
            assert(linked(self@.body, 0));
        }
        let from = self.body[1];
        let to = self.body[0];
        (from, Direction::new(&from, &to))
    }

    /// Where a shell draws the moving tail between two steps: the cell that
    /// the tail left at the last step, and the direction from it to the tail.
    /// After a step on which the snake grew the tail has not moved, and the
    /// direction is `Rest`.
    pub fn tail_glide(&self) -> (glide: (Segment, Direction))
        requires
            self.wf(),
        ensures
            glide.0 == self@.last_tail,
            glide.1 == Direction::between(self@.last_tail, self@.body.last()),
    {
        let from = self.last_tail;
        let to = self.body[self.body.len() - 1];
        (from, Direction::new(&from, &to))
    }
}

} // verus!
