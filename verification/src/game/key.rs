//! The keys that the game reacts to.

use vstd::prelude::*;

verus! {

/// A key press as the game sees it. A shell maps the key codes of its
/// windowing or terminal library onto this type; every key that the game has
/// no use for becomes `Other`.
#[derive(Clone, Copy, Debug, PartialEq, Eq, Structural)]
pub enum Key {
    Up,
    Down,
    Left,
    Right,
    Return,
    Escape,
    R,
    Other,
}

} // verus!
