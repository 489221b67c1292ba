//! The menu that opens the program and follows every game.

use vstd::prelude::*;
use crate::game::key::Key;
use crate::game::state::game_state::StateResult;

verus! {

/// What a key does to a menu of `count` entries of which entry `selected` is
/// marked: the entry marked afterwards, and what the menu asks for.
///
/// `Up` marks the next entry and `Down` the one before, both around the
/// ends. `Return` asks for a game on the first entry and for the exit on any
/// other. Every other key, and no key, does nothing.
pub open spec fn menu_press(selected: int, count: int, key: Option<Key>) -> (int, StateResult) {
    match key {
        Some(Key::Up) => ((selected + 1) % count, StateResult::Continue),
        Some(Key::Down) => ((selected + count - 1) % count, StateResult::Continue),
        Some(Key::Return) => (
            selected,
            if selected == 0 {
                StateResult::StartGame
            } else {
                StateResult::Exit
            },
        ),
        _ => (selected, StateResult::Continue),
    }
}

/// The menu: a list of entries, one of them marked.
pub struct Menu {
    selected: usize,
    options: Vec<String>,
}

impl Menu {
    /// The index of the marked entry.
    pub closed spec fn spec_selected(&self) -> usize {
        self.selected
    }

    /// The texts of the entries.
    pub closed spec fn spec_options(&self) -> Seq<String> {
        self.options@
    }

    /// The invariant of the menu: it has its two entries, to start a game
    /// and to leave, and one of them is marked.
    pub open spec fn wf(&self) -> bool {
        &&& self.spec_options().len() == 2
        &&& self.spec_options()[0]@ == "Start Game"@
        &&& self.spec_options()[1]@ == "Exit"@
        &&& self.spec_selected() < 2
    }

    /// The menu with its first entry marked.
    pub fn new() -> (menu: Self)
        ensures
            menu.wf(),
            menu.spec_selected() == 0,
    {
        Menu { selected: 0, options: vec!["Start Game".to_string(), "Exit".to_string()] }
    }

    /// The index of the marked entry.
    #[verifier::when_used_as_spec(spec_selected)]
    pub fn selected(&self) -> (index: usize)
        ensures
            index == self.spec_selected(),
    {
        self.selected
    }

    /// The texts of the entries, in the order in which they are shown.
    pub fn options(&self) -> (texts: &Vec<String>)
        ensures
            texts@ == self.spec_options(),
    {
        &self.options
    }

    /// Takes a key press: moves the mark, or says what the marked entry asks
    /// for. The entries stay as they are.
    pub fn key_down_event(&mut self, key: Option<Key>, _repeated: bool) -> (asked: StateResult)
        requires
            old(self).wf(),
        ensures
            final(self).wf(),
            final(self).spec_options() == old(self).spec_options(),
            (final(self).spec_selected() as int, asked) == menu_press(
                old(self).spec_selected() as int,
                2,
                key,
            ),
            asked != StateResult::GameOver,
    {
        match key {
            Some(Key::Up) => {
                self.selected += 1;
                self.selected %= self.options.len();
            },
            Some(Key::Down) => {
                self.selected += self.options.len() - 1;
                self.selected %= self.options.len();
            },
            Some(Key::Return) => {
                if self.selected == 0 {
                    return StateResult::StartGame;
                } else {
                    return StateResult::Exit;
                }
            },
            _ => {},
        }
        StateResult::Continue
    }
}

} // verus!
