//! The records the game state is made of.

use vstd::prelude::*;

verus! {

/// The player's lane: a row index of the terminal.
#[derive(Debug, Clone, Copy, PartialEq, Eq, Structural)]
pub struct Player {
    pub pos: u16,
}

/// A decorative star that falls down the background: its row, its 1-based
/// column and the glyph it is drawn with.
#[derive(Debug, Clone, Copy, PartialEq, Eq, Structural)]
pub struct FallingStar {
    pub pos: u16,
    pub col: u16,
    pub entity: char,
}

/// A shot fired by the player or an alien; it carries no data yet.
#[derive(Debug, Clone, Copy, PartialEq, Eq, Structural)]
pub struct Projectile {}

/// An enemy; it carries no data yet.
#[derive(Debug, Clone, Copy, PartialEq, Eq, Structural)]
pub struct Alien {}

} // verus!
