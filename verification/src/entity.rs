//! The records of players and of the guests that they send onto the grid.
//!
//! Each record comes in two shapes: the full one, which the simulation
//! keeps, and the one that may be shown to others, which leaves out what
//! is private. They are types of their own; the shown one is made from the
//! full one by whoever hands it out.

use vstd::prelude::*;

verus! {

/// A player, as the simulation keeps it.
#[derive(Debug, Clone, Eq, PartialEq)]
pub struct Player {
    pub id: i32,
    pub name: String,
    /// The credential of the player. It is never shown.
    pub password: String,
}

/// What may be shown of a player: all but the credential.
#[derive(Debug, Clone, Eq, PartialEq)]
pub struct PlayerInfo {
    pub id: i32,
    pub name: String,
}

/// A guest, as the simulation keeps it.
#[derive(Debug, Clone, Copy, Eq, PartialEq)]
pub struct Guest {
    pub id: i32,
    /// The energy that the guest has left. It is never shown.
    pub energy: i64,
    /// The components of the coordinate that the guest stands on.
    pub pos: (i16, i16),
    /// The temperature of the guest on the standard scale.
    pub temperature: i8,
    /// The player that the guest belongs to.
    pub master_id: i32,
}

/// What may be shown of a guest: all but its energy, with the temperature
/// in 16 bits.
#[derive(Debug, Clone, Copy, Eq, PartialEq)]
pub struct GuestInfo {
    pub id: i32,
    pub temperature: i16,
    /// The components of the coordinate that the guest stands on.
    pub pos: (i16, i16),
    /// The player that the guest belongs to.
    pub master_id: i32,
}

} // verus!
