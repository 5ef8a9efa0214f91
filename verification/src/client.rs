//! The client side of the relay engine: the local mirror of remote players,
//! the handler that applies relayed messages to it, and the helpers that
//! build the payloads a client sends toward the host.
use vstd::prelude::*;

use crate::codec::{decode_message, encode_message, encoded, wire_decode};
use crate::message::{MsgView, ServerMessages};
use crate::player::PlayerData;
use crate::projectile::{Lifetime, ProjectileReplica, Replicas, PROJECTILE_LIFETIME_MS};
use crate::registry::{
    distinct_ids, find_index, ids_of, lemma_map_of_dom, lemma_map_of_index, lemma_map_of_len,
    lemma_map_of_push, lemma_map_of_remove, lemma_map_of_update, map_of,
};
use crate::Vec3Bits;
use vstd::pervasive::VecAdditionalExecFns;

verus! {

/// The client-side registry of remote players: one locally owned
/// representation per remote peer the relay has announced, never one for the
/// local player itself.
#[derive(Debug)]
pub struct Entities {
    pub players: Vec<PlayerData>,
}

impl View for Entities {
    type V = Map<u64, Vec3Bits>;

    /// The mirror as a map from remote identity to its representation's
    /// position.
    open spec fn view(&self) -> Map<u64, Vec3Bits> {
        map_of(self.players@)
    }
}

impl Entities {
    /// Well-formed: one representation per identity.
    pub open spec fn wf(&self) -> bool {
        distinct_ids(self.players@)
    }

    /// The mirrored identities in the order they were first seen.
    pub open spec fn ids(&self) -> Seq<u64> {
        ids_of(self.players@)
    }

    /// An empty mirror.
    pub fn new() -> (r: Entities)
        ensures
            r.wf(),
            r@ == Map::<u64, Vec3Bits>::empty(),
    {
        Entities { players: Vec::new() }
    }

    /// Whether `id` is mirrored.
    pub fn contains(&self, id: u64) -> (r: bool)
        ensures
            r == self@.dom().contains(id),
    {
        proof {
            lemma_map_of_dom(self.players@);
        }
        match find_index(&self.players, id) {
            Some(i) => {
                proof {
                    assert(ids_of(self.players@)[i as int] == id);
                }
                true
            },
            None => false,
        }
    }

    /// How many remote players are mirrored.
    pub fn len(&self) -> (n: usize)
        requires
            self.wf(),
        ensures
            n == self@.dom().len(),
    {
        proof {
            lemma_map_of_len(self.players@);
        }
        self.players.len()
    }

    /// The mirrored position of `id`, if present.
    pub fn get_position(&self, id: u64) -> (r: Option<Vec3Bits>)
        requires
            self.wf(),
        ensures
            match r {
                Some(p) => self@.dom().contains(id) && self@[id] == p,
                None => !self@.dom().contains(id),
            },
    {
        proof {
            lemma_map_of_dom(self.players@);
        }
        match find_index(&self.players, id) {
            Some(i) => {
                proof {
                    lemma_map_of_index(self.players@, i as int);
                }
                Some(self.players[i].position)
            },
            None => None,
        }
    }
}

/// The client side of a session, as its composition root sets it up before
/// the first tick: an empty local mirror and no projectile replicas.
#[derive(Debug)]
pub struct Client {
    pub entities: Entities,
    pub replicas: Replicas,
}

impl Client {
    /// The state the client side starts every process with.
    pub fn build() -> (r: Client)
        ensures
            r.entities.wf(),
            r.entities@ == Map::<u64, Vec3Bits>::empty(),
            r.replicas@ == Seq::<ProjectileReplica>::empty(),
    {
        Client { entities: Entities::new(), replicas: Replicas::new() }
    }
}

/// What the presentation and transport layers must do after a relayed
/// message is applied: the relay decides, these effects carry the decision
/// out.
#[derive(Debug, PartialEq)]
pub enum ClientEffect {
    /// Create a visual representation for a newly seen remote player.
    SpawnRemotePlayer { id: u64, position: Vec3Bits },
    /// Send this message back toward the host: the echo-on-first-sight
    /// acknowledgment. The host's handling is idempotent, so the echo is
    /// harmless — it is redundant traffic, preserved as the protocol has it,
    /// not a handshake the host depends on.
    SendToHost { message: ServerMessages },
    /// Move an existing representation to an absolute position, wholesale.
    MoveRemotePlayer { id: u64, position: Vec3Bits },
    /// Destroy a representation and release what it owns.
    DespawnRemotePlayer { id: u64 },
    /// Create the visual body of a projectile replica just recorded.
    SpawnProjectileReplica { id: u64, position: Vec3Bits, direction: Vec3Bits },
    /// Show diagnostic text.
    LogText { text: String },
}

/// The mathematical value of a [`ClientEffect`].
pub enum ClientEffectView {
    SpawnRemotePlayer { id: u64, position: Vec3Bits },
    SendToHost { message: MsgView },
    MoveRemotePlayer { id: u64, position: Vec3Bits },
    DespawnRemotePlayer { id: u64 },
    SpawnProjectileReplica { id: u64, position: Vec3Bits, direction: Vec3Bits },
    LogText { text: Seq<char> },
}

impl View for ClientEffect {
    type V = ClientEffectView;

    open spec fn view(&self) -> ClientEffectView {
        match self {
            ClientEffect::SpawnRemotePlayer { id, position } => {
                ClientEffectView::SpawnRemotePlayer { id: *id, position: *position }
            },
            ClientEffect::SendToHost { message } => ClientEffectView::SendToHost {
                message: message@,
            },
            ClientEffect::MoveRemotePlayer { id, position } => {
                ClientEffectView::MoveRemotePlayer { id: *id, position: *position }
            },
            ClientEffect::DespawnRemotePlayer { id } => ClientEffectView::DespawnRemotePlayer {
                id: *id,
            },
            ClientEffect::SpawnProjectileReplica { id, position, direction } => {
                ClientEffectView::SpawnProjectileReplica {
                    id: *id,
                    position: *position,
                    direction: *direction,
                }
            },
            ClientEffect::LogText { text } => ClientEffectView::LogText { text: text@ },
        }
    }
}

/// The mirror after one relayed message. A peer never mirrors itself: a
/// `PlayerConnected` for the local identity is ignored, one for a new remote
/// identity creates an entry at the announced position, a repeated one
/// changes nothing. `PlayerMoved` overwrites an existing entry's position
/// wholesale. `PlayerDisconnected` and a remote `PlayerDeath` remove the
/// entry; removing an absent entry is a no-op.
pub open spec fn mirror_after_server_msg(
    m: Map<u64, Vec3Bits>,
    local_id: u64,
    msg: MsgView,
) -> Map<u64, Vec3Bits> {
    match msg {
        MsgView::PlayerConnected { id, position } => if id == local_id || m.dom().contains(id) {
            m
        } else {
            m.insert(id, position)
        },
        MsgView::PlayerDisconnected { id } => m.remove(id),
        MsgView::PlayerMoved { id, position } => if m.dom().contains(id) {
            m.insert(id, position)
        } else {
            m
        },
        MsgView::PlayerDeath { id } => if id == local_id {
            m
        } else {
            m.remove(id)
        },
        _ => m,
    }
}

/// The replica store after one relayed message: a `ProjectileSpawned` from a
/// remote peer appends one replica with the announced position and
/// direction, a full countdown, and the caller-supplied fresh identifier; a
/// client's own announcement echoed back adds nothing (it already spawned
/// its copy at fire time); no other message touches the store.
pub open spec fn replicas_after_server_msg(
    rs: Seq<ProjectileReplica>,
    local_id: u64,
    msg: MsgView,
    replica_id: u64,
) -> Seq<ProjectileReplica> {
    match msg {
        MsgView::ProjectileSpawned { id, position, direction } => if id == local_id {
            rs
        } else {
            rs.push(
                ProjectileReplica {
                    owner: id,
                    position,
                    direction,
                    replica_id,
                    lifetime: Lifetime { remaining_ms: PROJECTILE_LIFETIME_MS },
                },
            )
        },
        _ => rs,
    }
}

/// The effects one relayed message asks of the presentation and transport
/// layers, given the mirror it meets.
pub open spec fn client_effects(m: Map<u64, Vec3Bits>, local_id: u64, msg: MsgView) -> Seq<
    ClientEffectView,
> {
    match msg {
        MsgView::PlayerConnected { id, position } => if id == local_id || m.dom().contains(id) {
            Seq::empty()
        } else {
            seq![
                ClientEffectView::SpawnRemotePlayer { id, position },
                ClientEffectView::SendToHost { message: msg },
            ]
        },
        MsgView::PlayerDisconnected { id } => if m.dom().contains(id) {
            seq![ClientEffectView::DespawnRemotePlayer { id }]
        } else {
            Seq::empty()
        },
        MsgView::PlayerMoved { id, position } => if m.dom().contains(id) {
            seq![ClientEffectView::MoveRemotePlayer { id, position }]
        } else {
            Seq::empty()
        },
        MsgView::ProjectileSpawned { id, position, direction } => if id == local_id {
            Seq::empty()
        } else {
            seq![ClientEffectView::SpawnProjectileReplica { id, position, direction }]
        },
        MsgView::TestMessage { message } => seq![ClientEffectView::LogText { text: message }],
        MsgView::PlayerDeath { id } => if id != local_id && m.dom().contains(id) {
            seq![ClientEffectView::DespawnRemotePlayer { id }]
        } else {
            Seq::empty()
        },
    }
}

/// Applies one relayed message to the local mirror and replica store, as
/// [`mirror_after_server_msg`] and [`replicas_after_server_msg`] state, and
/// returns the effects of [`client_effects`] for the presentation and
/// transport layers. `replica_id` is the spawn-time derived identifier the
/// caller supplies for a replica recorded by this message; it is unused
/// otherwise.
pub fn apply_server_message(
    entities: &mut Entities,
    replicas: &mut Replicas,
    local_id: u64,
    message: ServerMessages,
    replica_id: u64,
) -> (fx: Vec<ClientEffect>)
    requires
        old(entities).wf(),
    ensures
        final(entities).wf(),
        final(entities)@ == mirror_after_server_msg(old(entities)@, local_id, message@),
        final(replicas)@ == replicas_after_server_msg(
            old(replicas)@,
            local_id,
            message@,
            replica_id,
        ),
        fx@.map_values(|e: ClientEffect| e@) == client_effects(old(entities)@, local_id, message@),
{
    let mut fx: Vec<ClientEffect> = Vec::new();
    match message {
        ServerMessages::PlayerConnected { id, position } => {
            proof {
                lemma_map_of_dom(entities.players@);
            }
            if id != local_id {
                match find_index(&entities.players, id) {
                    Some(i) => {
                        proof {
                            assert(ids_of(entities.players@)[i as int] == id);
                        }
                    },
                    None => {
                        let record = PlayerData { id, position };
                        proof {
                            lemma_map_of_push(entities.players@, record);
                        }
                        entities.players.push(record);
                        fx.push(ClientEffect::SpawnRemotePlayer { id, position });
                        fx.push(
                            ClientEffect::SendToHost {
                                message: ServerMessages::PlayerConnected { id, position },
                            },
                        );
                    },
                }
            }
        },
        ServerMessages::PlayerDisconnected { id } => {
            proof {
                lemma_map_of_dom(entities.players@);
            }
            match find_index(&entities.players, id) {
                Some(i) => {
                    proof {
                        assert(ids_of(entities.players@)[i as int] == id);
                        lemma_map_of_remove(entities.players@, i as int);
                    }
                    entities.players.remove(i);
                    fx.push(ClientEffect::DespawnRemotePlayer { id });
                },
                None => {
                    proof {
                        assert(map_of(entities.players@) =~= map_of(entities.players@).remove(id));
                    }
                },
            }
        },
        ServerMessages::PlayerMoved { id, position } => {
            proof {
                lemma_map_of_dom(entities.players@);
            }
            match find_index(&entities.players, id) {
                Some(i) => {
                    let p = PlayerData { id, position };
                    proof {
                        assert(ids_of(entities.players@)[i as int] == id);
                        lemma_map_of_update(entities.players@, i as int, p);
                    }
                    entities.players.set(i, p);
                    fx.push(ClientEffect::MoveRemotePlayer { id, position });
                },
                None => {},
            }
        },
        ServerMessages::ProjectileSpawned { id, position, direction } => {
            if id != local_id {
                replicas.spawn(id, position, direction, replica_id);
                fx.push(ClientEffect::SpawnProjectileReplica { id, position, direction });
            }
        },
        ServerMessages::TestMessage { message } => {
            fx.push(ClientEffect::LogText { text: message });
        },
        ServerMessages::PlayerDeath { id } => {
            proof {
                lemma_map_of_dom(entities.players@);
            }
            if id != local_id {
                match find_index(&entities.players, id) {
                    Some(i) => {
                        proof {
                            assert(ids_of(entities.players@)[i as int] == id);
                            lemma_map_of_remove(entities.players@, i as int);
                        }
                        entities.players.remove(i);
                        fx.push(ClientEffect::DespawnRemotePlayer { id });
                    },
                    None => {
                        proof {
                            assert(map_of(entities.players@) =~= map_of(
                                entities.players@,
                            ).remove(id));
                        }
                    },
                }
            }
        },
    }
    proof {
        assert(fx@.map_values(|e: ClientEffect| e@) =~= client_effects(
            old(entities)@,
            local_id,
            message@,
        ));
    }
    fx
}

/// The raw byte payloads of a received burst, in arrival order.
pub open spec fn payload_views(inbound: Seq<Vec<u8>>) -> Seq<Seq<u8>> {
    inbound.map_values(|p: Vec<u8>| p@)
}

/// The mirror after a burst of raw payloads is drained in order; payloads
/// that decode are applied one by one, the rest are dropped without effect.
pub open spec fn mirror_after_burst(
    m: Map<u64, Vec3Bits>,
    local_id: u64,
    payloads: Seq<Seq<u8>>,
) -> Map<u64, Vec3Bits>
    decreases payloads.len(),
{
    if payloads.len() == 0 {
        m
    } else {
        let prev = mirror_after_burst(m, local_id, payloads.drop_last());
        match wire_decode(payloads.last()) {
            Some(msg) => mirror_after_server_msg(prev, local_id, msg),
            None => prev,
        }
    }
}

/// The replica store after a burst of raw payloads, each decodable payload
/// consuming the fresh identifier supplied at its index.
pub open spec fn replicas_after_burst(
    rs: Seq<ProjectileReplica>,
    local_id: u64,
    payloads: Seq<Seq<u8>>,
    replica_ids: Seq<u64>,
) -> Seq<ProjectileReplica>
    recommends
        replica_ids.len() == payloads.len(),
    decreases payloads.len(),
{
    if payloads.len() == 0 {
        rs
    } else {
        let prev = replicas_after_burst(
            rs,
            local_id,
            payloads.drop_last(),
            replica_ids.drop_last(),
        );
        match wire_decode(payloads.last()) {
            Some(msg) => replicas_after_server_msg(
                prev,
                local_id,
                msg,
                replica_ids[payloads.len() - 1],
            ),
            None => prev,
        }
    }
}

/// Everything a burst of raw payloads asks of the presentation and transport
/// layers, in order.
pub open spec fn effects_after_burst(
    m: Map<u64, Vec3Bits>,
    local_id: u64,
    payloads: Seq<Seq<u8>>,
) -> Seq<ClientEffectView>
    decreases payloads.len(),
{
    if payloads.len() == 0 {
        Seq::empty()
    } else {
        let prev_m = mirror_after_burst(m, local_id, payloads.drop_last());
        let prev_fx = effects_after_burst(m, local_id, payloads.drop_last());
        match wire_decode(payloads.last()) {
            Some(msg) => prev_fx + client_effects(prev_m, local_id, msg),
            None => prev_fx,
        }
    }
}

/// Drains one tick's relayed messages: decodes each payload, applies it to
/// the mirror and the replica store, and collects the effects. A payload
/// that is not the encoding of any message is dropped there and then — it
/// cannot disturb the rest of the burst or the tick. `replica_ids` supplies
/// one fresh spawn-time identifier per payload, consumed when that payload
/// records a replica.
pub fn client_sync_players(
    entities: &mut Entities,
    replicas: &mut Replicas,
    local_id: u64,
    inbound: &Vec<Vec<u8>>,
    replica_ids: &Vec<u64>,
) -> (fx: Vec<ClientEffect>)
    requires
        old(entities).wf(),
        replica_ids@.len() == inbound@.len(),
    ensures
        final(entities).wf(),
        final(entities)@ == mirror_after_burst(old(entities)@, local_id, payload_views(inbound@)),
        final(replicas)@ == replicas_after_burst(
            old(replicas)@,
            local_id,
            payload_views(inbound@),
            replica_ids@,
        ),
        fx@.map_values(|e: ClientEffect| e@) == effects_after_burst(
            old(entities)@,
            local_id,
            payload_views(inbound@),
        ),
{
    let mut fx: Vec<ClientEffect> = Vec::new();
    let n = inbound.len();
    for i in 0..n
        invariant
            n == inbound@.len(),
            replica_ids@.len() == inbound@.len(),
            entities.wf(),
            entities@ == mirror_after_burst(
                old(entities)@,
                local_id,
                payload_views(inbound@).take(i as int),
            ),
            replicas@ == replicas_after_burst(
                old(replicas)@,
                local_id,
                payload_views(inbound@).take(i as int),
                replica_ids@.take(i as int),
            ),
            fx@.map_values(|e: ClientEffect| e@) == effects_after_burst(
                old(entities)@,
                local_id,
                payload_views(inbound@).take(i as int),
            ),
    {
        proof {
            assert(payload_views(inbound@).take(i as int + 1).drop_last() =~= payload_views(
                inbound@,
            ).take(i as int));
            assert(replica_ids@.take(i as int + 1).drop_last() =~= replica_ids@.take(i as int));
            assert(payload_views(inbound@).take(i as int + 1).last() == inbound@[i as int]@);
        }
        match decode_message(&inbound[i]) {
            Some(message) => {
                let ghost fx_before = fx@;
                let mut extra = apply_server_message(
                    entities,
                    replicas,
                    local_id,
                    message,
                    replica_ids[i],
                );
                let ghost extra_view = extra@;
                fx.append(&mut extra);
                proof {
                    assert(fx@ =~= fx_before + extra_view);
                    assert(fx@.map_values(|e: ClientEffect| e@) =~= fx_before.map_values(
                        |e: ClientEffect| e@,
                    ) + extra_view.map_values(|e: ClientEffect| e@));
                }
            },
            None => {},
        }
    }
    proof {
        assert(payload_views(inbound@).take(n as int) =~= payload_views(inbound@));
        assert(replica_ids@.take(n as int) =~= replica_ids@);
    }
    fx
}

/// Builds the wire payload of the position snapshot a client sends each tick
/// for its own avatar.
pub fn player_moved_payload(id: u64, position: Vec3Bits) -> (r: Vec<u8>)
    ensures
        r@ == encoded((MsgView::PlayerMoved { id, position })),
{
    encode_message(&ServerMessages::PlayerMoved { id, position })
}

/// Builds the wire payload announcing a projectile the local player fired.
pub fn projectile_spawned_payload(id: u64, position: Vec3Bits, direction: Vec3Bits) -> (r: Vec<u8>)
    ensures
        r@ == encoded((MsgView::ProjectileSpawned { id, position, direction })),
{
    encode_message(&ServerMessages::ProjectileSpawned { id, position, direction })
}

/// Idempotence on the mirror: applying the same relayed message twice leaves
/// exactly the state one application leaves — in particular a repeated
/// `PlayerMoved { id, p }` overwrites with `p` again, changing nothing.
pub proof fn lemma_server_msg_idempotent(m: Map<u64, Vec3Bits>, local_id: u64, msg: MsgView)
    ensures
        mirror_after_server_msg(mirror_after_server_msg(m, local_id, msg), local_id, msg)
            == mirror_after_server_msg(m, local_id, msg),
{
    let once = mirror_after_server_msg(m, local_id, msg);
    assert(mirror_after_server_msg(once, local_id, msg) =~= once);
}

/// The mirror after the same relayed message is applied `n` times over.
pub open spec fn mirror_after_repeated_msg(
    m: Map<u64, Vec3Bits>,
    local_id: u64,
    msg: MsgView,
    n: nat,
) -> Map<u64, Vec3Bits>
    decreases n,
{
    if n == 0 {
        m
    } else {
        mirror_after_server_msg(mirror_after_repeated_msg(m, local_id, msg, (n - 1) as nat), local_id, msg)
    }
}

/// Applying the same relayed message any number of times leaves exactly the
/// state one application leaves.
pub proof fn lemma_server_msg_idempotent_n(m: Map<u64, Vec3Bits>, local_id: u64, msg: MsgView, n: nat)
    requires
        n >= 1,
    ensures
        mirror_after_repeated_msg(m, local_id, msg, n) == mirror_after_server_msg(m, local_id, msg),
    decreases n,
{
    if n > 1 {
        lemma_server_msg_idempotent_n(m, local_id, msg, (n - 1) as nat);
        lemma_server_msg_idempotent(m, local_id, msg);
    } else {
        assert(mirror_after_repeated_msg(m, local_id, msg, 0) == m);
    }
}

/// Disconnect cleanup on the mirror: after a `PlayerDisconnected`, or a
/// `PlayerDeath` for a remote peer, the identity is absent; a repeated
/// removal of an absent identity changes nothing.
pub proof fn lemma_mirror_disconnect_cleanup(m: Map<u64, Vec3Bits>, local_id: u64, id: u64)
    ensures
        !mirror_after_server_msg(m, local_id, (MsgView::PlayerDisconnected { id })).dom().contains(
            id,
        ),
        id != local_id ==> !mirror_after_server_msg(
            m,
            local_id,
            (MsgView::PlayerDeath { id }),
        ).dom().contains(id),
        !m.dom().contains(id) ==> mirror_after_server_msg(
            m,
            local_id,
            (MsgView::PlayerDisconnected { id }),
        ) == m,
{
    if !m.dom().contains(id) {
        assert(m.remove(id) =~= m);
    }
}

/// Self-exclusion: whatever message arrives, a client whose mirror does not
/// contain its own identity never gains an entry for it, and a client's own
/// projectile announcement echoed back records no second replica.
pub proof fn lemma_self_exclusion(
    m: Map<u64, Vec3Bits>,
    rs: Seq<ProjectileReplica>,
    local_id: u64,
    msg: MsgView,
    replica_id: u64,
)
    requires
        !m.dom().contains(local_id),
    ensures
        !mirror_after_server_msg(m, local_id, msg).dom().contains(local_id),
        (msg matches MsgView::ProjectileSpawned { id, position, direction } && id == local_id)
            ==> replicas_after_server_msg(rs, local_id, msg, replica_id) == rs,
{
}

/// The replica store after a burst of already decoded messages, each
/// consuming the fresh identifier at its index.
pub open spec fn replicas_after_msgs(
    rs: Seq<ProjectileReplica>,
    local_id: u64,
    msgs: Seq<MsgView>,
    replica_ids: Seq<u64>,
) -> Seq<ProjectileReplica>
    recommends
        replica_ids.len() == msgs.len(),
    decreases msgs.len(),
{
    if msgs.len() == 0 {
        rs
    } else {
        replicas_after_server_msg(
            replicas_after_msgs(rs, local_id, msgs.drop_last(), replica_ids.drop_last()),
            local_id,
            msgs.last(),
            replica_ids[msgs.len() - 1],
        )
    }
}

/// Relay fidelity: a burst of `ProjectileSpawned` announcements from remote
/// peers records exactly one independent replica per announcement, in order,
/// each carrying the announced position and direction, a full countdown, and
/// its own fresh identifier — and the replicas already present are
/// untouched.
pub proof fn lemma_relay_fidelity(
    rs: Seq<ProjectileReplica>,
    local_id: u64,
    msgs: Seq<MsgView>,
    replica_ids: Seq<u64>,
)
    requires
        replica_ids.len() == msgs.len(),
        forall|k: int|
            0 <= k < msgs.len() ==> ((#[trigger] msgs[k]) matches MsgView::ProjectileSpawned {
                id,
                position,
                direction,
            } && id != local_id),
    ensures
        replicas_after_msgs(rs, local_id, msgs, replica_ids).len() == rs.len() + msgs.len(),
        forall|k: int|
            0 <= k < rs.len() ==> #[trigger] replicas_after_msgs(
                rs,
                local_id,
                msgs,
                replica_ids,
            )[k] == rs[k],
        forall|k: int|
            0 <= k < msgs.len() ==> (msgs[k] matches MsgView::ProjectileSpawned {
                id,
                position,
                direction,
            } && #[trigger] replicas_after_msgs(rs, local_id, msgs, replica_ids)[rs.len() + k]
                == (ProjectileReplica {
                owner: id,
                position,
                direction,
                replica_id: replica_ids[k],
                lifetime: (Lifetime { remaining_ms: PROJECTILE_LIFETIME_MS }),
            })),
    decreases msgs.len(),
{
    if msgs.len() > 0 {
        lemma_relay_fidelity(rs, local_id, msgs.drop_last(), replica_ids.drop_last());
    }
}

} // verus!
