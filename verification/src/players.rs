//! The two players and their gorillas.

use vstd::prelude::*;
use crate::game::AngleSpeed;
use crate::physics::Vec2i;

verus! {

/// Identifies whose turn it is and which gorilla belongs to whom.
#[derive(Clone, Copy, Debug, PartialEq, Eq, Structural, Hash)]
pub enum Player {
    One,
    Two,
}

/// The opponent of a player.
pub open spec fn other_player(p: Player) -> Player {
    if p is One {
        Player::Two
    } else {
        Player::One
    }
}

impl Player {
    /// The opponent of this player.
    pub fn other(self) -> (p: Player)
        ensures
            p == other_player(self),
    {
        match self {
            Player::One => Player::Two,
            Player::Two => Player::One,
        }
    }
}

/// A gorilla: the throwing figure and kill target owned by one player.
#[derive(Clone, Debug)]
pub struct Gorilla {
    pub player: Player,
    pub name: String,
}

impl Gorilla {
    /// Player One's gorilla, under the given display name.
    pub fn one(name: String) -> (g: Gorilla)
        ensures
            g.player == Player::One,
            g.name == name,
    {
        Gorilla { player: Player::One, name }
    }

    /// Player Two's gorilla, under the given display name.
    pub fn two(name: String) -> (g: Gorilla)
        ensures
            g.player == Player::Two,
            g.name == name,
    {
        Gorilla { player: Player::Two, name }
    }
}

/// One player's gorilla as placed in the world: the figure, its fixed map
/// position (center, milli-pixels) and the player's current aim.
#[derive(Clone, Debug)]
pub struct GorillaState {
    pub gorilla: Gorilla,
    pub pos: Vec2i,
    pub aim: AngleSpeed,
}

impl GorillaState {
    /// Position within coordinate range and aim within its hard ranges.
    pub open spec fn wf(self) -> bool {
        self.pos.in_range() && self.aim.wf()
    }
}

} // verus!
