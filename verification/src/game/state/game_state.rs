//! The machine that switches between the menu and the game.

use vstd::prelude::*;
use crate::game::config::{check_config, config_fault, playable, ConfigError};
use crate::game::grid::interior;
use crate::game::key::Key;
use crate::game::state::game::{Game, GameModel};
use crate::game::state::menu::{menu_press, Menu};

verus! {

/// What a state asks of the one that drives it.
#[derive(Clone, Copy, Debug, PartialEq, Eq, Structural)]
pub enum StateResult {
    /// A game is to begin.
    StartGame,
    /// The program is to end.
    Exit,
    /// The game is over.
    GameOver,
    /// Nothing: go on.
    Continue,
}

/// The configuration that every game of a session is made with.
pub struct Settings {
    pub map_size: u32,
    pub step_time: u64,
    pub turn_time: u64,
}

/// What is on the screen, as a mathematical value: the menu with one entry
/// marked, or a game.
#[verifier::ext_equal]
pub enum Screen {
    Menu { selected: int },
    Playing(GameModel),
}

impl Screen {
    /// The screen after an update at time `now`. The menu does not change.
    /// A game is updated, `spawn` being the fruit that falls if a roll for
    /// one is due; a game that is over gives way to the menu with its first
    /// entry marked.
    pub open spec fn update(self, now: u64, spawn: Option<(int, int)>) -> Screen {
        match self {
            Screen::Menu { selected } => self,
            Screen::Playing(game) => {
                let (updated, result) = game.update(now, spawn);
                if result == StateResult::GameOver {
                    Screen::Menu { selected: 0 }
                } else {
                    Screen::Playing(updated)
                }
            },
        }
    }

    /// The screen after a key press at time `now`, and what the press asks
    /// of the shell. In the menu the key moves the mark or chooses the marked
    /// entry: the first begins a fresh game with `settings`, the other asks
    /// for the exit. In a game the key goes to the game.
    pub open spec fn press(self, settings: Settings, key: Option<Key>, now: u64) -> (
        Screen,
        StateResult,
    ) {
        match self {
            Screen::Menu { selected } => {
                let (marked, asked) = menu_press(selected, 2, key);
                match asked {
                    StateResult::StartGame => (
                        Screen::Playing(
                            GameModel::initial(
                                settings.map_size,
                                settings.step_time,
                                settings.turn_time,
                                now,
                            ),
                        ),
                        StateResult::Continue,
                    ),
                    StateResult::Exit => (Screen::Menu { selected: marked }, StateResult::Exit),
                    _ => (Screen::Menu { selected: marked }, StateResult::Continue),
                }
            },
            Screen::Playing(game) => (Screen::Playing(game.press(key, now)), StateResult::Continue),
        }
    }
}

enum GameStateData {
    Menu(Menu),
    Game(Game),
}

/// The whole program state: the menu or a game, and the settings that games
/// are made with.
///
/// Its view is the `Screen`.
pub struct GameState {
    game_state: GameStateData,
    map_size: u32,
    step_time: u64,
    turn_time: u64,
}

impl View for GameState {
    type V = Screen;

    closed spec fn view(&self) -> Screen {
        match self.game_state {
            GameStateData::Menu(menu) => Screen::Menu { selected: menu.spec_selected() as int },
            GameStateData::Game(game) => Screen::Playing(game@),
        }
    }
}

impl GameState {
    /// The settings that games are made with.
    pub closed spec fn settings(&self) -> Settings {
        Settings { map_size: self.map_size, step_time: self.step_time, turn_time: self.turn_time }
    }

    /// The state on the screen is sound, and a game on it was made with the
    /// settings.
    pub closed spec fn coherent(&self) -> bool {
        match self.game_state {
            GameStateData::Menu(menu) => menu.wf(),
            GameStateData::Game(game) => {
                &&& game.wf()
                &&& game@.snake.size == self.map_size
                &&& game@.snake.step_time == self.step_time
                &&& game@.snake.turn_time == self.turn_time
            },
        }
    }

    /// The invariant: the settings can be played, and the state fits them.
    pub open spec fn wf(&self) -> bool {
        &&& playable(self.settings().map_size, self.settings().step_time, self.settings().turn_time)
        &&& self.coherent()
    }

    /// The program at its start: the menu, its first entry marked. Settings
    /// that cannot be played are turned down with their first fault, so that
    /// no game is ever begun with them.
    pub fn new(map_size: u32, step_time: u64, turn_time: u64) -> (made: Result<Self, ConfigError>)
        ensures
            made.is_ok() <==> playable(map_size, step_time, turn_time),
            made matches Ok(state) ==> {
                &&& state.wf()
                &&& state@ == (Screen::Menu { selected: 0 })
                &&& state.settings() == (Settings { map_size, step_time, turn_time })
            },
            made matches Err(fault) ==> config_fault(map_size, step_time, turn_time) == Some(
                fault,
            ),
    {
        match check_config(map_size, step_time, turn_time) {
            Err(fault) => Err(fault),
            Ok(()) => Ok(
                GameState {
                    game_state: GameStateData::Menu(Menu::new()),
                    map_size,
                    step_time,
                    turn_time,
                },
            ),
        }
    }

    /// One update at time `now`. The menu waits. A game is updated, and one
    /// that is over gives way to the menu. The fruit that falls in the game,
    /// if any, is some interior cell and no more is said of it.
    pub fn update(&mut self, now: u64)
        requires
            old(self).wf(),
        ensures
            final(self).wf(),
            final(self).settings() == old(self).settings(),
            exists|spawn: Option<(int, int)>|
                {
                    &&& spawn matches Some(c) ==> interior(old(self).settings().map_size as int, c)
                    &&& final(self)@ == #[trigger] old(self)@.update(now, spawn)
                },
    {
        match &mut self.game_state {
            GameStateData::Menu(_) => {
                assert(self@ == old(self)@.update(now, None));
            },
            GameStateData::Game(game) => {
                let ghost before = game@;
                let result = game.update(now);
                let ghost spawn = choose|spawn: Option<(int, int)>|
                    {
                        &&& spawn matches Some(c) ==> interior(before.snake.size as int, c)
                        &&& (game@, result) == #[trigger] before.update(now, spawn)
                    };
                if let StateResult::GameOver = result {
                    self.game_state = GameStateData::Menu(Menu::new());
                }
                assert(self@ == old(self)@.update(now, spawn));
            },
        }
    }

    /// Takes a key press at time `now` and says what it asks of the shell:
    /// `Exit` where the menu's exit was chosen, and `Continue` in every other
    /// case.
    pub fn key_down_event(
        &mut self,
        key: Option<Key>,
        repeated: bool,
        now: u64,
    ) -> (asked: StateResult)
        requires
            old(self).wf(),
        ensures
            final(self).wf(),
            final(self).settings() == old(self).settings(),
            (final(self)@, asked) == old(self)@.press(old(self).settings(), key, now),
    {
        match &mut self.game_state {
            GameStateData::Menu(menu) => {
                match menu.key_down_event(key, repeated) {
                    StateResult::StartGame => {
                        match Game::new(self.map_size, self.step_time, self.turn_time, now) {
                            Ok(game) => {
                                self.game_state = GameStateData::Game(game);
                            },
                            Err(_) => {
                                // The settings were checked when the program began.
                                assert(false);
                            },
                        }
                        StateResult::Continue
                    },
                    StateResult::Exit => StateResult::Exit,
                    _ => StateResult::Continue,
                }
            },
            GameStateData::Game(game) => {
                game.key_down_event(key, repeated, now);
                StateResult::Continue
            },
        }
    }

    /// The menu, while it is on the screen.
    pub fn menu(&self) -> (shown: Option<&Menu>)
        ensures
            shown.is_some() <==> self@ is Menu,
            shown matches Some(menu) ==> self@ == (Screen::Menu {
                selected: menu.spec_selected() as int,
            }) && (self.wf() ==> menu.wf()),
    {
        match &self.game_state {
            GameStateData::Menu(menu) => Some(menu),
            GameStateData::Game(_) => None,
        }
    }

    /// The game, while one is running.
    pub fn game(&self) -> (running: Option<&Game>)
        ensures
            running.is_some() <==> self@ is Playing,
            running matches Some(game) ==> self@ == Screen::Playing(game@) && (self.wf()
                ==> game.wf()),
    {
        match &self.game_state {
            GameStateData::Menu(_) => None,
            GameStateData::Game(game) => Some(game),
        }
    }
}

/// A game that is over leaves the screen to the menu at the next update,
/// whatever the time; and the menu stays until a key is pressed.
pub proof fn lemma_over_game_gives_way_to_menu(
    game: GameModel,
    selected: int,
    now: u64,
    spawn: Option<(int, int)>,
)
    requires
        game.game_over,
    ensures
        Screen::Playing(game).update(now, spawn) == (Screen::Menu { selected: 0 }),
        (Screen::Menu { selected }).update(now, spawn) == (Screen::Menu { selected }),
{
}

/// The shell is asked to quit by the menu alone: by `Return` on an entry
/// other than the first. No key in a game asks for it.
pub proof fn lemma_exit_comes_from_the_menu(
    screen: Screen,
    settings: Settings,
    key: Option<Key>,
    now: u64,
)
    ensures
        screen.press(settings, key, now).1 == StateResult::Exit <==> {
            &&& screen matches Screen::Menu { selected }
            &&& selected != 0
            &&& key == Some(Key::Return)
        },
        screen.press(settings, key, now).1 == StateResult::Exit || screen.press(
            settings,
            key,
            now,
        ).1 == StateResult::Continue,
{
}

} // verus!
