//! Peer synchronization core for a small multiplayer session: the tagged
//! message protocol exchanged between peers, the host-side lobby of connected
//! players, the client-side mirror of remote players, the relay engine that
//! keeps them consistent, and the one-shot host transport initialization.
use vstd::prelude::*;

pub mod client;
pub mod codec;
pub mod host;
pub mod message;
pub mod player;
pub mod projectile;
pub mod registry;
pub mod server;

verus! {

/// A three-component vector carried through the protocol as raw 32-bit
/// components. The relay never interprets the components; it stores,
/// compares and forwards them exactly, so an IEEE-754 bit pattern placed
/// here by the caller round-trips without loss.
#[derive(Clone, Copy, Debug, PartialEq, Eq, Structural)]
pub struct Vec3Bits {
    pub x: u32,
    pub y: u32,
    pub z: u32,
}

} // verus!
