//! A paddle: the side it plays on and its fixed size. Its position is kept beside it, by the
//! game.
use vstd::prelude::*;

verus! {

/// Height of the canonical paddle: 34 units.
pub const PLAYER_HEIGHT: i64 = 34_000_000;

/// Width of the canonical paddle: 40 units.
pub const PLAYER_WIDTH: i64 = 40_000_000;

/// A half of the arena, and the player who defends it.
#[derive(Clone, Copy, Debug, PartialEq, Eq, Structural)]
pub enum Side {
    Left,
    Right,
}

#[derive(Clone, Copy, Debug, PartialEq, Eq, Structural)]
pub struct Player {
    /// Never written after creation.
    pub side: Side,
    pub width: i64,
    pub height: i64,
}

impl Player {
    /// A paddle of the canonical size on the given side.
    pub fn new(side: Side) -> (player: Player)
        ensures
            player == (Player { side, width: PLAYER_WIDTH, height: PLAYER_HEIGHT }),
    {
        Player { side, width: PLAYER_WIDTH, height: PLAYER_HEIGHT }
    }
}

} // verus!
