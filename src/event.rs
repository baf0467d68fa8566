//! Intents handed to the simulation, one per tick.
use crate::entity::player::Ability;
use crate::geometry::Pos;
use vstd::prelude::*;

verus! {

#[derive(Debug, Clone, Copy, PartialEq, Eq, Structural)]
pub enum Event {
    Player(PlayerEvent),
    Game(GameEvent),
}

#[derive(Debug, Clone, Copy, PartialEq, Eq, Structural)]
pub enum GameEvent {
    Pause,
    Play,
    /// New canvas size, in cells.
    Resize(u16, u16),
    Quit,
}

#[derive(Debug, Clone, Copy, PartialEq, Eq, Structural)]
pub enum PlayerEvent {
    /// Move by a vector, in sub-units.
    Move(i64, i64),
    /// Point at a position.
    Aim(Pos),
    Shoot,
    Ability(Ability),
}

} // verus!
