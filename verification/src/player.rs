//! The turn controller's identity: which of the two players moves, which
//! figure each one places, and the flip after a successful move.

use vstd::prelude::*;
use crate::board::Figure;

verus! {

/// One of the two players. Player A always places Cross, player B Circle.
#[derive(Clone, Copy, Debug, PartialEq, Eq, Structural)]
pub enum Player {
    A,
    B,
}

/// The figure a player places: A maps to Cross, B to Circle, fixed for the
/// whole game.
pub open spec fn marker_of(p: Player) -> Figure {
    match p {
        Player::A => Figure::Cross,
        Player::B => Figure::Circle,
    }
}

/// The other player.
pub open spec fn other(p: Player) -> Player {
    match p {
        Player::A => Player::B,
        Player::B => Player::A,
    }
}

/// The display name of a player for user-facing messages.
pub open spec fn name_of(p: Player) -> Seq<char> {
    match p {
        Player::A => "Player A"@,
        Player::B => "Player B"@,
    }
}

impl Player {
    /// The figure this player places.
    pub fn marker(self) -> (f: Figure)
        ensures
            f == marker_of(self),
    {
        match self {
            Player::A => Figure::Cross,
            Player::B => Figure::Circle,
        }
    }

    /// Flips A and B; called after every successful move.
    pub fn change(self) -> (p: Player)
        ensures
            p == other(self),
    {
        match self {
            Player::A => Player::B,
            Player::B => Player::A,
        }
    }

    /// The player's display name.
    pub fn name(self) -> (r: String)
        ensures
            r@ == name_of(self),
    {
        match self {
            Player::A => String::from_str("Player A"),
            Player::B => String::from_str("Player B"),
        }
    }
}

/// Flipping the turn twice returns it to the same player, and a flip never
/// leaves the turn where it was: the turn strictly alternates A, B, A, B on
/// successful moves.
pub proof fn lemma_turn_alternates(p: Player)
    ensures
        other(other(p)) == p,
        other(p) != p,
{
}

} // verus!
