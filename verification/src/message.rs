//! The tagged message protocol exchanged between peers: one variant per event
//! kind, each carrying exactly the fields needed to reconstruct or relay the
//! event.
use vstd::prelude::*;

use crate::Vec3Bits;

verus! {

/// Every event a peer can announce. A client sends `PlayerMoved`,
/// `ProjectileSpawned`, `PlayerDeath` and `TestMessage` toward the host;
/// the host relays those and additionally announces `PlayerConnected` and
/// `PlayerDisconnected` when the transport reports connection events.
#[derive(Debug, PartialEq)]
pub enum ServerMessages {
    /// Announces presence and starting position of a peer.
    PlayerConnected { id: u64, position: Vec3Bits },
    /// Announces departure of a peer.
    PlayerDisconnected { id: u64 },
    /// A full absolute position snapshot (not a delta).
    PlayerMoved { id: u64, position: Vec3Bits },
    /// A fire-and-forget projectile spawn announcement.
    ProjectileSpawned { id: u64, position: Vec3Bits, direction: Vec3Bits },
    /// Diagnostic text; carries no state-machine meaning.
    TestMessage { message: String },
    /// Announces that a peer's avatar should be removed.
    PlayerDeath { id: u64 },
}

/// The mathematical value of a message: identical to [`ServerMessages`]
/// except that text is abstracted to its character sequence.
pub enum MsgView {
    PlayerConnected { id: u64, position: Vec3Bits },
    PlayerDisconnected { id: u64 },
    PlayerMoved { id: u64, position: Vec3Bits },
    ProjectileSpawned { id: u64, position: Vec3Bits, direction: Vec3Bits },
    TestMessage { message: Seq<char> },
    PlayerDeath { id: u64 },
}

impl View for ServerMessages {
    type V = MsgView;

    open spec fn view(&self) -> MsgView {
        match self {
            ServerMessages::PlayerConnected { id, position } => MsgView::PlayerConnected {
                id: *id,
                position: *position,
            },
            ServerMessages::PlayerDisconnected { id } => MsgView::PlayerDisconnected { id: *id },
            ServerMessages::PlayerMoved { id, position } => MsgView::PlayerMoved {
                id: *id,
                position: *position,
            },
            ServerMessages::ProjectileSpawned { id, position, direction } => {
                MsgView::ProjectileSpawned { id: *id, position: *position, direction: *direction }
            },
            ServerMessages::TestMessage { message } => MsgView::TestMessage { message: message@ },
            ServerMessages::PlayerDeath { id } => MsgView::PlayerDeath { id: *id },
        }
    }
}

} // verus!
