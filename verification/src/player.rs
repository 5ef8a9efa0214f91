//! The per-player record kept by the registries, the fixed spawn position,
//! and the local alive/dead flag.
use vstd::prelude::*;

use crate::Vec3Bits;

verus! {

/// One player's last-known state: its identity and its absolute position.
/// The host's lobby keeps one per connected peer; a client's local mirror
/// keeps one per remote peer it represents.
#[derive(Clone, Copy, Debug, PartialEq, Eq, Structural)]
pub struct PlayerData {
    pub id: u64,
    pub position: Vec3Bits,
}

/// The fixed position every newly connected player is recorded at: the
/// origin. Where the presentation layer places a fresh avatar above the
/// ground is its own business; the registries record the origin until the
/// peer's first position snapshot arrives.
pub open spec fn spawn_position() -> Vec3Bits {
    Vec3Bits { x: 0, y: 0, z: 0 }
}

impl PlayerData {
    /// A fresh record for a newly connected peer, at the spawn position.
    pub fn new(id: u64) -> (r: PlayerData)
        ensures
            r.id == id,
            r.position == spawn_position(),
    {
        PlayerData { id, position: Vec3Bits { x: 0, y: 0, z: 0 } }
    }
}

/// Whether the local avatar is alive. Flipped to `Dead` by local hit
/// detection only; no network message reports the transition (the protocol's
/// `PlayerDeath` variant is handled on receipt, but this path does not send
/// it — a deliberate open point of the design, preserved as is).
#[derive(Clone, Copy, Debug, PartialEq, Eq, Structural)]
pub enum PlayerState {
    Alive,
    Dead,
}

impl Default for PlayerState {
    fn default() -> (r: Self)
        ensures
            r == PlayerState::Alive,
    {
        PlayerState::Alive
    }
}

/// Consumes a death already recorded locally: reports whether the avatar was
/// dead, and resets the flag so the report is shown once.
pub fn acknowledge_death(state: &mut PlayerState) -> (was_dead: bool)
    ensures
        was_dead == (*old(state) is Dead),
        *final(state) == PlayerState::Alive,
{
    let was_dead = match *state {
        PlayerState::Dead => true,
        PlayerState::Alive => false,
    };
    *state = PlayerState::Alive;
    was_dead
}

} // verus!
