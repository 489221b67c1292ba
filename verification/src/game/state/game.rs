//! A running game: one snake, one board, and the fruit that falls on it.

use vstd::prelude::*;
use rand::rngs::ThreadRng;
use crate::game::clock::{elapsed, elapsed_since};
use crate::game::config::{config_fault, playable, ConfigError};
use crate::game::direction::Direction;
use crate::game::grid::{interior, Grid};
use crate::game::key::Key;
use crate::game::motion::{
    lemma_initial_wf, lemma_tick_preserves_wf, lemma_turn_preserves_wf, SnakeState, TickOutcome,
};
use crate::game::random::{gen_range, thread_rng};
use crate::game::snake::Snake;
use crate::game::state::game_state::StateResult;

verus! {

/// The time between two rolls for a fruit, in milliseconds.
pub const UPDATE_INTERVAL: u64 = 150;

/// The number of values that a roll for a fruit can take.
pub const ROLL_RANGE: u32 = 100;

/// The number of those values that bring a fruit.
pub const FRUIT_CHANCE: u32 = 5;

/// A running game as a mathematical value.
#[verifier::ext_equal]
pub struct GameModel {
    /// The snake.
    pub snake: SnakeState,
    /// The positions that hold a fruit.
    pub fruit: Set<(int, int)>,
    /// The time of the last roll for a fruit.
    pub last_update: u64,
    /// Whether the game is over.
    pub game_over: bool,
}

impl GameModel {
    /// A fresh game as of time `now`: the snake at its start, no fruit.
    pub open spec fn initial(map_size: u32, step_time: u64, turn_time: u64, now: u64) -> GameModel {
        GameModel {
            snake: SnakeState::initial(map_size, step_time, turn_time, now),
            fruit: Set::empty(),
            last_update: now,
            game_over: false,
        }
    }

    /// The invariant of a game: that of its snake, and fruit on interior
    /// cells only.
    pub open spec fn wf(self) -> bool {
        &&& self.snake.wf()
        &&& forall|c: (int, int)| self.fruit.contains(c) ==> interior(self.snake.size as int, c)
    }

    /// The snake's part of an update at time `now`. A game that is over
    /// stays as it is and says so. Otherwise the snake attempts a step; if it
    /// dies of it, the game is over.
    pub open spec fn advance(self, now: u64) -> (GameModel, StateResult) {
        if self.game_over {
            (self, StateResult::GameOver)
        } else {
            let t = self.snake.tick(self.fruit, now, self.snake.step_time);
            if t.outcome == TickOutcome::Died {
                (
                    GameModel { snake: t.snake, fruit: t.fruit, game_over: true, ..self },
                    StateResult::GameOver,
                )
            } else {
                (GameModel { snake: t.snake, fruit: t.fruit, ..self }, StateResult::Continue)
            }
        }
    }

    /// Whether a roll for a fruit is due at time `now`.
    pub open spec fn roll_due(self, now: u64) -> bool {
        elapsed_since(self.last_update, now) >= UPDATE_INTERVAL
    }

    /// The game after a roll at time `now` that brought a fruit for position
    /// `spawn`, or none.
    pub open spec fn rolled(self, spawn: Option<(int, int)>, now: u64) -> GameModel {
        GameModel {
            fruit: match spawn {
                Some(c) => self.fruit.insert(c),
                None => self.fruit,
            },
            last_update: now,
            ..self
        }
    }

    /// An update at time `now`: the snake's part, and then, in a game that
    /// goes on, the roll for a fruit if one is due. `spawn` is what that roll
    /// brings.
    pub open spec fn update(self, now: u64, spawn: Option<(int, int)>) -> (GameModel, StateResult) {
        let (advanced, result) = self.advance(now);
        if result == StateResult::Continue && advanced.roll_due(now) {
            (advanced.rolled(spawn, now), result)
        } else {
            (advanced, result)
        }
    }

    /// The game after a request to turn to `dir` at time `now`. In a game
    /// that is over nothing happens. A request that the snake takes up is
    /// followed at once by a step that waits for `turn_time` only; if the
    /// snake dies of it, the game is over.
    pub open spec fn steer(self, dir: Direction, now: u64) -> GameModel {
        if self.game_over || !self.snake.accepts(dir) {
            self
        } else {
            let t = self.snake.turn(dir).tick(self.fruit, now, self.snake.turn_time);
            GameModel {
                snake: t.snake,
                fruit: t.fruit,
                game_over: t.outcome == TickOutcome::Died,
                ..self
            }
        }
    }

    /// The game after a key press at time `now`. `Escape` ends the game,
    /// `R` starts it afresh, an arrow key steers, and any other key, or
    /// none, does nothing.
    pub open spec fn press(self, key: Option<Key>, now: u64) -> GameModel {
        match key {
            Some(Key::Escape) => GameModel { game_over: true, ..self },
            Some(Key::R) => GameModel::initial(
                self.snake.size,
                self.snake.step_time,
                self.snake.turn_time,
                now,
            ),
            Some(k) => match Direction::of_key(k) {
                Some(dir) => self.steer(dir, now),
                None => self,
            },
            None => self,
        }
    }
}

/// A running game. It owns its snake, its board and its random source.
///
/// Its view is the `GameModel` that the rules above speak of.
pub struct Game {
    snake: Snake,
    map: Grid,
    rng: ThreadRng,
    last_update_time: u64,
    game_over: bool,
    map_size: u32,
    step_time: u64,
    turn_time: u64,
}

impl View for Game {
    type V = GameModel;

    closed spec fn view(&self) -> GameModel {
        GameModel {
            snake: self.snake@,
            fruit: self.map@,
            last_update: self.last_update_time,
            game_over: self.game_over,
        }
    }
}

impl Game {
    /// The parts of the game fit together: snake and board are sound and of
    /// one size, and the game remembers the configuration it was made with.
    pub closed spec fn coherent(&self) -> bool {
        &&& self.snake.wf()
        &&& self.map.wf()
        &&& self.map.size() == self.map_size
        &&& self.snake@.size == self.map_size
        &&& self.snake@.step_time == self.step_time
        &&& self.snake@.turn_time == self.turn_time
    }

    /// The invariant of the game.
    pub open spec fn wf(&self) -> bool {
        self.coherent() && self@.wf()
    }

    /// A fresh game on a grid of `map_size` cells to a side, as of time
    /// `now`. A configuration that cannot be played is turned down with its
    /// first fault.
    pub fn new(map_size: u32, step_time: u64, turn_time: u64, now: u64) -> (made: Result<
        Self,
        ConfigError,
    >)
        ensures
            made.is_ok() <==> playable(map_size, step_time, turn_time),
            made matches Ok(game) ==> game.wf() && game@ == GameModel::initial(
                map_size,
                step_time,
                turn_time,
                now,
            ),
            made matches Err(fault) ==> config_fault(map_size, step_time, turn_time) == Some(
                fault,
            ),
    {
        match Snake::new(map_size, step_time, turn_time, now) {
            Err(fault) => Err(fault),
            Ok(snake) => {
                let game = Game {
                    snake,
                    map: Grid::new(map_size),
                    rng: thread_rng(),
                    last_update_time: now,
                    game_over: false,
                    map_size,
                    step_time,
                    turn_time,
                };
                Ok(game)
            },
        }
    }

    /// Starts the game afresh as of time `now`, with the configuration that
    /// it was made with. All that went before is dropped.
    pub fn restart(&mut self, now: u64)
        requires
            old(self).wf(),
        ensures
            final(self).wf(),
            final(self)@ == GameModel::initial(
                old(self)@.snake.size,
                old(self)@.snake.step_time,
                old(self)@.snake.turn_time,
                now,
            ),
    {
        match Snake::new(self.map_size, self.step_time, self.turn_time, now) {
            Ok(snake) => {
                self.snake = snake;
                self.map = Grid::new(self.map_size);
                self.last_update_time = now;
                self.game_over = false;
            },
            Err(_) => {
                // The game was made with these settings, so they can be played.
                assert(false);
            },
        }
    }

    /// The snake's part of an update at time `now`: nothing in a game that
    /// is over, else one attempt at a step, which ends the game if the snake
    /// dies of it.
    pub fn advance(&mut self, now: u64) -> (result: StateResult)
        requires
            old(self).wf(),
        ensures
            final(self).wf(),
            (final(self)@, result) == old(self)@.advance(now),
    {
        if self.game_over {
            return StateResult::GameOver;
        }
        let outcome = self.snake.next(&mut self.map, now);
        match outcome {
            TickOutcome::Died => {
                self.game_over = true;
                StateResult::GameOver
            },
            _ => StateResult::Continue,
        }
    }

    /// Whether a roll for a fruit is due at time `now`.
    pub fn roll_due(&self, now: u64) -> (due: bool)
        ensures
            due == self@.roll_due(now),
    {
        elapsed(self.last_update_time, now) >= UPDATE_INTERVAL
    }

    /// What follows a roll of `roll` at time `now`: a roll below
    /// `FRUIT_CHANCE` puts a fruit on an interior cell drawn at random, any
    /// other roll brings none. Either way the time of the roll is noted.
    pub fn roll_fruit(&mut self, roll: u32, now: u64)
        requires
            old(self).wf(),
        ensures
            final(self).wf(),
            roll >= FRUIT_CHANCE ==> final(self)@ == old(self)@.rolled(None, now),
            roll < FRUIT_CHANCE ==> exists|c: (int, int)|
                interior(old(self)@.snake.size as int, c)
                    && final(self)@ == #[trigger] old(self)@.rolled(Some(c), now),
    {
        let ghost before = self@;
        if roll < FRUIT_CHANCE {
            self.map.gen_fruit(&mut self.rng);
        }
        self.last_update_time = now;
        proof {
            if roll < FRUIT_CHANCE {
                let c = choose|c: (int, int)|
                    interior(before.snake.size as int, c)
                        && self.map@ == #[trigger] before.fruit.insert(c);
                assert(self@ == before.rolled(Some(c), now));
            }
        }
    }

    /// One update at time `now`: the snake attempts a step, and in a game
    /// that goes on a fruit may fall, if a roll for one is due. The roll and
    /// the cell come from the random source, so the fruit that falls, if
    /// any, is some interior cell and no more is said of it.
    pub fn update(&mut self, now: u64) -> (result: StateResult)
        requires
            old(self).wf(),
        ensures
            final(self).wf(),
            exists|spawn: Option<(int, int)>|
                {
                    &&& spawn matches Some(c) ==> interior(old(self)@.snake.size as int, c)
                    &&& (final(self)@, result) == #[trigger] old(self)@.update(now, spawn)
                },
    {
        let result = self.advance(now);
        let ghost advanced = self@;
        let ghost mut spawn: Option<(int, int)> = None;
        if result == StateResult::Continue && self.roll_due(now) {
            let roll = gen_range(&mut self.rng, 0, ROLL_RANGE - 1);
            self.roll_fruit(roll, now);
            proof {
                if roll < FRUIT_CHANCE {
                    let c = choose|c: (int, int)|
                        interior(advanced.snake.size as int, c)
                            && self@ == #[trigger] advanced.rolled(Some(c), now);
                    spawn = Some(c);
                }
            }
        }
        assert((self@, result) == old(self)@.update(now, spawn));
        result
    }

    /// Takes a key press at time `now`: `Escape` ends the game, `R` starts
    /// it afresh, an arrow key steers the snake as `steer` does, and any
    /// other key does nothing. Whatever the key, the game asks nothing of
    /// the one that drives it.
    pub fn key_down_event(
        &mut self,
        key: Option<Key>,
        _repeated: bool,
        now: u64,
    ) -> (result: StateResult)
        requires
            old(self).wf(),
        ensures
            final(self).wf(),
            final(self)@ == old(self)@.press(key, now),
            result == StateResult::Continue,
    {
        if let Some(key_code) = key {
            match key_code {
                Key::Escape => {
                    self.game_over = true;
                },
                Key::R => {
                    self.restart(now);
                },
                _ => {
                    if let Some(dir) = Direction::from_keycode(key_code) {
                        self.steer(dir, now);
                    }
                },
            }
        }
        StateResult::Continue
    }

    /// Asks the snake to turn to `dir` at time `now`. Where the snake takes
    /// the turn up, it may step at once: it does if its turn time has passed
    /// since its last step. A snake that dies of that step ends the game.
    /// Nothing happens in a game that is over.
    pub fn steer(&mut self, dir: Direction, now: u64)
        requires
            old(self).wf(),
        ensures
            final(self).wf(),
            final(self)@ == old(self)@.steer(dir, now),
    {
        if !self.game_over && self.snake.trun(dir) {
            let outcome = self.snake.next_turn(&mut self.map, now);
            match outcome {
                TickOutcome::Died => {
                    self.game_over = true;
                },
                _ => {},
            }
        }
    }

    /// The snake of the game.
    pub fn snake(&self) -> (snake: &Snake)
        ensures
            snake@ == self@.snake,
            self.wf() ==> snake.wf(),
    {
        &self.snake
    }

    /// The board of the game.
    pub fn map(&self) -> (map: &Grid)
        ensures
            map@ == self@.fruit,
            self.wf() ==> map.wf() && map.size() == self@.snake.size,
    {
        &self.map
    }

    /// Whether the game is over.
    pub fn is_over(&self) -> (over: bool)
        ensures
            over == self@.game_over,
    {
        self.game_over
    }
}

/// An update keeps the invariant of the game, whatever fruit falls on the
/// interior.
pub proof fn lemma_update_preserves_wf(game: GameModel, now: u64, spawn: Option<(int, int)>)
    requires
        game.wf(),
        spawn matches Some(c) ==> interior(game.snake.size as int, c),
    ensures
        game.update(now, spawn).0.wf(),
{
    lemma_tick_preserves_wf(game.snake, game.fruit, now, game.snake.step_time);
}

/// A key press keeps the invariant of the game.
pub proof fn lemma_press_preserves_wf(game: GameModel, key: Option<Key>, now: u64)
    requires
        game.wf(),
    ensures
        game.press(key, now).wf(),
{
    lemma_initial_wf(game.snake.size, game.snake.step_time, game.snake.turn_time, now);
    if let Some(k) = key {
        if let Some(dir) = Direction::of_key(k) {
            lemma_turn_preserves_wf(game.snake, dir);
            lemma_tick_preserves_wf(game.snake.turn(dir), game.fruit, now, game.snake.turn_time);
        }
    }
}

/// A game that is over stays over under updates, and nothing in it moves;
/// only `R` brings it back.
pub proof fn lemma_game_over_is_final(
    game: GameModel,
    now: u64,
    spawn: Option<(int, int)>,
    key: Option<Key>,
)
    requires
        game.game_over,
    ensures
        game.update(now, spawn) == (game, StateResult::GameOver),
        key != Some(Key::R) ==> game.press(key, now) == game,
{
}

} // verus!
