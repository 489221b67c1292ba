//! The rules by which the snake turns and moves, as mathematics.
//!
//! `SnakeState` is the snake as a value, `turn` and `tick` are its two
//! transitions. The executable snake is proved to follow them; the laws at
//! the end of this file are proved of the transitions themselves.

use vstd::prelude::*;
use crate::game::clock::elapsed_since;
use crate::game::config::playable;
use crate::game::direction::Direction;
use crate::game::grid::{interior, on_ring};
use crate::game::segment::Segment;

verus! {

/// What an attempt to tick came to.
#[derive(Clone, Copy, Debug, PartialEq, Eq, Structural)]
pub enum TickOutcome {
    /// Too little time has passed since the last tick: nothing happened.
    Continuing,
    /// The snake advanced by one cell.
    Moved,
    /// The snake ran into the border ring or into itself, now or earlier.
    Died,
}

/// The snake as a mathematical value.
#[verifier::ext_equal]
pub struct SnakeState {
    /// The cells of the body, head first.
    pub body: Seq<Segment>,
    /// The cell that the tail left at the last tick.
    pub last_tail: Segment,
    /// The committed direction: the one that ticks carry out.
    pub dir: Direction,
    /// The directions asked for and not yet committed, oldest first.
    pub pending: Seq<Direction>,
    /// The side length of the grid.
    pub size: u32,
    /// The time of the last tick that took effect.
    pub last_step: u64,
    /// The least time between two steps.
    pub step_time: u64,
    /// The least time between a step and a quick turn.
    pub turn_time: u64,
    /// Whether the snake is still alive.
    pub alive: bool,
}

/// The result of a tick: the snake and the fruit after it, and the outcome.
#[verifier::ext_equal]
pub struct Ticked {
    pub snake: SnakeState,
    pub fruit: Set<(int, int)>,
    pub outcome: TickOutcome,
}

/// The cell at a position.
pub open spec fn cell_at(c: (int, int)) -> Segment {
    Segment { x: c.0 as u32, y: c.1 as u32 }
}

/// The positions that the cells of `body` lie on.
pub open spec fn positions(body: Seq<Segment>) -> Set<(int, int)> {
    Set::new(|c: (int, int)| exists|i: int| 0 <= i < body.len() && (#[trigger] body[i]).pos() == c)
}

/// Whether `v` lies one step up, down, left or right of `u`.
pub open spec fn adjacent(u: Segment, v: Segment) -> bool {
    ||| u.x == v.x && (u.y - v.y == 1 || v.y - u.y == 1)
    ||| u.y == v.y && (u.x - v.x == 1 || v.x - u.x == 1)
}

/// Whether the cell at index `i` of `body` and the one behind it are
/// neighbours.
pub open spec fn linked(body: Seq<Segment>, i: int) -> bool {
    adjacent(body[i], body[i + 1])
}

impl SnakeState {
    /// The snake at the start of a game on a grid of `size` cells to a side:
    /// two cells long, in the middle column near the bottom, heading up.
    pub open spec fn initial(size: u32, step_time: u64, turn_time: u64, now: u64) -> SnakeState {
        SnakeState {
            body: seq![
                Segment { x: size / 2, y: (size - 4) as u32 },
                Segment { x: size / 2, y: (size - 3) as u32 },
            ],
            last_tail: Segment { x: size / 2, y: (size - 2) as u32 },
            dir: Direction::Up,
            pending: Seq::empty(),
            size,
            last_step: now,
            step_time,
            turn_time,
            alive: true,
        }
    }

    /// The invariant of the snake: its configuration can be played, it is at
    /// least two cells long, lies in the interior, crosses itself nowhere, is
    /// connected from head to tail, and has at most two turns waiting.
    pub open spec fn wf(self) -> bool {
        &&& playable(self.size, self.step_time, self.turn_time)
        &&& self.body.len() >= 2
        &&& self.body.no_duplicates()
        &&& forall|i: int|
            0 <= i < self.body.len() ==> interior(self.size as int, (#[trigger] self.body[i]).pos())
        &&& forall|i: int| 0 <= i < self.body.len() - 1 ==> #[trigger] linked(self.body, i)
        &&& self.pending.len() <= 2
    }

    /// The direction that the snake will have once every pending turn is
    /// committed: the newest pending one, or the committed one if none waits.
    pub open spec fn heading(self) -> Direction {
        if self.pending.len() > 0 {
            self.pending.last()
        } else {
            self.dir
        }
    }

    /// Whether a request to turn to `d` is taken up. It is not when two
    /// turns wait already, when `d` is the heading, or when `d` is the
    /// inverse of the heading; the inverse of the committed direction is
    /// turned down only for a body longer than one cell.
    pub open spec fn accepts(self, d: Direction) -> bool {
        &&& self.pending.len() < 2
        &&& d != self.heading()
        &&& !(d == self.heading().opposite() && (self.pending.len() > 0 || self.body.len() > 1))
    }

    /// The snake after a request to turn to `d`.
    pub open spec fn turn(self, d: Direction) -> SnakeState {
        if self.accepts(d) {
            SnakeState { pending: self.pending.push(d), ..self }
        } else {
            self
        }
    }

    /// Whether a tick at time `now` takes effect, given that `wait`
    /// milliseconds must have passed since the last one.
    pub open spec fn due(self, now: u64, wait: u64) -> bool {
        self.alive && elapsed_since(self.last_step, now) >= wait
    }

    /// The direction of the next step: the oldest pending turn, or the
    /// committed direction if none waits.
    pub open spec fn next_dir(self) -> Direction {
        if self.pending.len() > 0 {
            self.pending[0]
        } else {
            self.dir
        }
    }

    /// The turns that still wait once the next step has taken its own.
    pub open spec fn next_pending(self) -> Seq<Direction> {
        if self.pending.len() > 0 {
            self.pending.drop_first()
        } else {
            self.pending
        }
    }

    /// The position that the head moves to at the next step.
    pub open spec fn candidate(self) -> (int, int) {
        self.next_dir().step(self.body[0].pos())
    }

    /// Whether the snake cannot move to position `c`: it lies outside the
    /// interior or on the body.
    pub open spec fn blocked(self, c: (int, int)) -> bool {
        !interior(self.size as int, c) || self.body.contains(cell_at(c))
    }

    /// A tick at time `now` that takes effect once `wait` milliseconds have
    /// passed since the last one, on a board whose fruit is `fruit`.
    ///
    /// A dead snake stays as it is. A living one whose wait is not yet
    /// over stays as it is too. Otherwise the oldest pending turn is committed,
    /// the tail cell and the time are recorded, and the head tries the next
    /// cell: a blocked cell kills the snake and leaves the body alone, a cell
    /// with fruit is eaten and the body grows by it, any other cell is
    /// entered and the tail follows.
    pub open spec fn tick(self, fruit: Set<(int, int)>, now: u64, wait: u64) -> Ticked {
        if !self.alive {
            Ticked { snake: self, fruit, outcome: TickOutcome::Died }
        } else if !self.due(now, wait) {
            Ticked { snake: self, fruit, outcome: TickOutcome::Continuing }
        } else {
            let c = self.candidate();
            let turned = SnakeState {
                dir: self.next_dir(),
                pending: self.next_pending(),
                last_tail: self.body.last(),
                last_step: now,
                ..self
            };
            if self.blocked(c) {
                Ticked {
                    snake: SnakeState { alive: false, ..turned },
                    fruit,
                    outcome: TickOutcome::Died,
                }
            } else if fruit.contains(c) {
                Ticked {
                    snake: SnakeState { body: seq![cell_at(c)] + self.body, ..turned },
                    fruit: fruit.remove(c),
                    outcome: TickOutcome::Moved,
                }
            } else {
                Ticked {
                    snake: SnakeState {
                        body: seq![cell_at(c)] + self.body.drop_last(),
                        ..turned
                    },
                    fruit,
                    outcome: TickOutcome::Moved,
                }
            }
        }
    }
}

/// A position is one of the positions of a body exactly when its cell is a
/// cell of the body.
pub proof fn lemma_positions_hold_cells(body: Seq<Segment>, cell: Segment)
    ensures
        positions(body).contains(cell.pos()) <==> body.contains(cell),
{
    if positions(body).contains(cell.pos()) {
        let i = choose|i: int| 0 <= i < body.len() && (#[trigger] body[i]).pos() == cell.pos();
        assert(body[i] == cell);
    }
    if body.contains(cell) {
        let i = choose|i: int| 0 <= i < body.len() && body[i] == cell;
        assert(body[i].pos() == cell.pos());
    }
}

/// A cell put in front of a body adds its position to those of the body.
pub proof fn lemma_positions_grow(body: Seq<Segment>, cell: Segment)
    ensures
        positions(seq![cell] + body) == positions(body).insert(cell.pos()),
{
    let grown = seq![cell] + body;
    assert forall|c: (int, int)| positions(grown).contains(c) implies positions(body).insert(
        cell.pos(),
    ).contains(c) by {
        let i = choose|i: int| 0 <= i < grown.len() && (#[trigger] grown[i]).pos() == c;
        if i > 0 {
            assert(body[i - 1].pos() == c);
        }
    }
    assert forall|c: (int, int)| positions(body).insert(cell.pos()).contains(
        c,
    ) implies positions(grown).contains(c) by {
        if c == cell.pos() {
            assert(grown[0].pos() == c);
        } else {
            let i = choose|i: int| 0 <= i < body.len() && (#[trigger] body[i]).pos() == c;
            assert(grown[i + 1].pos() == c);
        }
    }
    assert(positions(grown) =~= positions(body).insert(cell.pos()));
}

/// The last cell taken off a body that crosses itself nowhere takes its
/// position from those of the body.
pub proof fn lemma_positions_shrink(body: Seq<Segment>)
    requires
        body.len() > 0,
        body.no_duplicates(),
    ensures
        positions(body.drop_last()) == positions(body).remove(body.last().pos()),
{
    let short = body.drop_last();
    assert forall|c: (int, int)| positions(short).contains(c) implies positions(body).remove(
        body.last().pos(),
    ).contains(c) by {
        let i = choose|i: int| 0 <= i < short.len() && (#[trigger] short[i]).pos() == c;
        assert(body[i].pos() == c);
        assert(body[i] != body[body.len() - 1]);
    }
    assert forall|c: (int, int)| positions(body).remove(body.last().pos()).contains(
        c,
    ) implies positions(short).contains(c) by {
        let i = choose|i: int| 0 <= i < body.len() && (#[trigger] body[i]).pos() == c;
        assert(i < body.len() - 1);
        assert(short[i].pos() == c);
    }
    assert(positions(short) =~= positions(body).remove(body.last().pos()));
}

/// The snake at the start of a game on a playable grid meets its invariant.
pub proof fn lemma_initial_wf(size: u32, step_time: u64, turn_time: u64, now: u64)
    requires
        playable(size, step_time, turn_time),
    ensures
        SnakeState::initial(size, step_time, turn_time, now).wf(),
{
    let s = SnakeState::initial(size, step_time, turn_time, now);
    assert(linked(s.body, 0));
}

/// A request to turn changes nothing but the pending turns: it moves no
/// cell, commits no direction, and kills no snake.
pub proof fn lemma_turn_touches_pending_only(s: SnakeState, d: Direction)
    ensures
        s.turn(d) == (SnakeState { pending: s.turn(d).pending, ..s }),
        s.turn(d).pending == if s.accepts(d) {
            s.pending.push(d)
        } else {
            s.pending
        },
{
}

/// A request to turn keeps the invariant.
pub proof fn lemma_turn_preserves_wf(s: SnakeState, d: Direction)
    requires
        s.wf(),
    ensures
        s.turn(d).wf(),
{
    let t = s.turn(d);
    assert forall|i: int| 0 <= i < t.body.len() - 1 implies #[trigger] linked(t.body, i) by {
        assert(linked(s.body, i));
    }
}

/// A tick keeps the invariant of the snake, and it adds no fruit.
pub proof fn lemma_tick_preserves_wf(s: SnakeState, fruit: Set<(int, int)>, now: u64, wait: u64)
    requires
        s.wf(),
    ensures
        s.tick(fruit, now, wait).snake.wf(),
        s.tick(fruit, now, wait).fruit.subset_of(fruit),
{
    let t = s.tick(fruit, now, wait);
    if t.outcome == TickOutcome::Moved {
        let c = s.candidate();
        let head = cell_at(c);
        let rest = if fruit.contains(c) {
            s.body
        } else {
            s.body.drop_last()
        };
        assert(t.snake.body == seq![head] + rest);
        assert(!s.body.contains(head));
        assert(interior(s.size as int, c));
        assert(head.pos() == c);
        assert(linked(s.body, 0));
        assert forall|i: int, j: int|
            0 <= i < t.snake.body.len() && 0 <= j < t.snake.body.len() && i != j implies t.snake.body[i]
            != t.snake.body[j] by {
            if i > 0 {
                assert(t.snake.body[i] == s.body[i - 1]);
            }
            if j > 0 {
                assert(t.snake.body[j] == s.body[j - 1]);
            }
        }
        assert forall|i: int| 0 <= i < t.snake.body.len() implies interior(
            s.size as int,
            (#[trigger] t.snake.body[i]).pos(),
        ) by {
            if i > 0 {
                assert(t.snake.body[i] == s.body[i - 1]);
            }
        }
        assert forall|i: int| 0 <= i < t.snake.body.len() - 1 implies #[trigger] linked(
            t.snake.body,
            i,
        ) by {
            if i > 0 {
                assert(linked(s.body, i - 1));
                assert(t.snake.body[i] == s.body[i - 1]);
                assert(t.snake.body[i + 1] == s.body[i]);
            } else {
                assert(t.snake.body[0] == head);
                assert(t.snake.body[1] == s.body[0]);
            }
        }
    } else {
        assert forall|i: int| 0 <= i < t.snake.body.len() - 1 implies #[trigger] linked(
            t.snake.body,
            i,
        ) by {
            assert(linked(s.body, i));
        }
    }
}

/// After a tick that moved the snake, no cell occurs twice in the body, and
/// the head lies one step from the previous head, in the committed
/// direction.
pub proof fn lemma_moved_head_is_next_to_old_head(
    s: SnakeState,
    fruit: Set<(int, int)>,
    now: u64,
    wait: u64,
)
    requires
        s.wf(),
        s.tick(fruit, now, wait).outcome == TickOutcome::Moved,
    ensures
        ({
            let t = s.tick(fruit, now, wait).snake;
            &&& t.body.no_duplicates()
            &&& t.dir != Direction::Rest
            &&& t.body[0].pos() == t.dir.step(s.body[0].pos())
            &&& adjacent(s.body[0], t.body[0])
        }),
{
    lemma_tick_preserves_wf(s, fruit, now, wait);
    let t = s.tick(fruit, now, wait).snake;
    assert(t.body[0] == cell_at(s.candidate()));
    assert(interior(s.size as int, s.candidate()));
    if t.dir == Direction::Rest {
        assert(s.body[0] == cell_at(s.candidate()));
        assert(s.body.contains(cell_at(s.candidate())));
    }
}

/// Growth: a tick that moves the snake onto a fruit makes the body longer
/// by one, the new head in front of the whole old body, and the fruit is
/// gone. A tick that moves it onto a cell without fruit keeps the length: the
/// new head stands in front of the old body without its last cell.
pub proof fn lemma_growth(s: SnakeState, fruit: Set<(int, int)>, now: u64, wait: u64)
    requires
        s.wf(),
        s.tick(fruit, now, wait).outcome == TickOutcome::Moved,
    ensures
        ({
            let c = s.candidate();
            let t = s.tick(fruit, now, wait);
            &&& t.snake.body[0] == cell_at(c)
            &&& t.snake.last_tail == s.body.last()
            &&& fruit.contains(c) ==> {
                &&& t.snake.body.len() == s.body.len() + 1
                &&& t.snake.body.drop_first() == s.body
                &&& t.fruit == fruit.remove(c)
            }
            &&& !fruit.contains(c) ==> {
                &&& t.snake.body.len() == s.body.len()
                &&& t.snake.body.drop_first() == s.body.drop_last()
                &&& t.fruit == fruit
            }
        }),
{
    let c = s.candidate();
    let t = s.tick(fruit, now, wait);
    if fruit.contains(c) {
        assert(t.snake.body.drop_first() =~= s.body);
    } else {
        assert(t.snake.body.drop_first() =~= s.body.drop_last());
    }
}

/// The border: on a grid of any size, a tick that takes effect and whose
/// next cell lies on the outermost ring kills the snake. The body and the
/// fruit stay as they were; the tail cell is recorded.
pub proof fn lemma_ring_kills(s: SnakeState, fruit: Set<(int, int)>, now: u64, wait: u64)
    requires
        s.due(now, wait),
        on_ring(s.size as int, s.candidate()),
    ensures
        ({
            let t = s.tick(fruit, now, wait);
            &&& t.outcome == TickOutcome::Died
            &&& !t.snake.alive
            &&& t.snake.body == s.body
            &&& t.snake.last_tail == s.body.last()
            &&& t.fruit == fruit
        }),
{
}

/// Death is final: a tick on a dead snake reports `Died` and changes
/// neither the snake nor the fruit, and no request to turn revives it.
pub proof fn lemma_dead_stays_dead(
    s: SnakeState,
    fruit: Set<(int, int)>,
    now: u64,
    wait: u64,
    d: Direction,
)
    requires
        !s.alive,
    ensures
        s.tick(fruit, now, wait) == (Ticked { snake: s, fruit, outcome: TickOutcome::Died }),
        !s.turn(d).alive,
{
}

/// A snake dies of a tick only: of one that takes effect and whose next cell
/// is blocked.
pub proof fn lemma_death_comes_by_a_blocked_tick(
    s: SnakeState,
    fruit: Set<(int, int)>,
    now: u64,
    wait: u64,
)
    requires
        s.alive,
    ensures
        !s.tick(fruit, now, wait).snake.alive <==> s.due(now, wait) && s.blocked(s.candidate()),
        s.tick(fruit, now, wait).outcome == TickOutcome::Died <==> !s.tick(
            fruit,
            now,
            wait,
        ).snake.alive,
{
}

/// Two turns in a row: where a request for `d1` and then one for `d2` are
/// both taken up, both wait in that order. The next tick that takes effect
/// commits `d1` and keeps `d2` waiting; if the snake lives on, the tick that
/// takes effect after it commits `d2`.
pub proof fn lemma_two_turns_in_order(
    s: SnakeState,
    d1: Direction,
    d2: Direction,
    fruit: Set<(int, int)>,
    now1: u64,
    now2: u64,
    wait: u64,
)
    requires
        s.accepts(d1),
        s.turn(d1).accepts(d2),
    ensures
        ({
            let asked = s.turn(d1).turn(d2);
            let first = asked.tick(fruit, now1, wait);
            let second = first.snake.tick(first.fruit, now2, wait);
            &&& asked.pending == seq![d1, d2]
            &&& asked.due(now1, wait) ==> {
                &&& first.snake.dir == d1
                &&& first.snake.pending == seq![d2]
                &&& first.snake.due(now2, wait) ==> {
                    &&& second.snake.dir == d2
                    &&& second.snake.pending == Seq::<Direction>::empty()
                }
            }
        }),
{
    let asked = s.turn(d1).turn(d2);
    assert(s.pending.len() == 0);
    assert(asked.pending =~= seq![d1, d2]);
    assert(asked.pending.drop_first() =~= seq![d2]);
    assert(seq![d2].drop_first() =~= Seq::<Direction>::empty());
}

/// A request that is turned down: asking for the heading, for its inverse
/// (while a turn waits, or while the body is longer than one cell), or for
/// anything while two turns wait, leaves the snake as it is.
pub proof fn lemma_turn_rejected(s: SnakeState, d: Direction)
    requires
        d == s.heading() || (d == s.heading().opposite() && (s.pending.len() > 0 || s.body.len()
            > 1)) || s.pending.len() >= 2,
    ensures
        s.turn(d) == s,
{
}

/// Spacing: of two ticks less than `wait` apart, the second changes
/// nothing, provided that it was not the first to find the wait over.
pub proof fn lemma_tick_spacing(s: SnakeState, fruit: Set<(int, int)>, t1: u64, t2: u64, wait: u64)
    requires
        elapsed_since(t1, t2) < wait,
        s.due(t1, wait) || !s.due(t2, wait),
    ensures
        ({
            let first = s.tick(fruit, t1, wait);
            let second = first.snake.tick(first.fruit, t2, wait);
            &&& second.snake == first.snake
            &&& second.fruit == first.fruit
            &&& second.outcome != TickOutcome::Moved
        }),
{
}

/// Spacing, for every pair of ticks less than `wait` apart: at most one of
/// the two changes anything.
pub proof fn lemma_close_ticks_change_once(
    s: SnakeState,
    fruit: Set<(int, int)>,
    t1: u64,
    t2: u64,
    wait: u64,
)
    requires
        elapsed_since(t1, t2) < wait,
    ensures
        ({
            let first = s.tick(fruit, t1, wait);
            let second = first.snake.tick(first.fruit, t2, wait);
            ||| first.snake == s && first.fruit == fruit
            ||| second.snake == first.snake && second.fruit == first.fruit
        }),
{
}

} // verus!
