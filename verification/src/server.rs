//! The host side of the relay engine: the authoritative lobby of connected
//! players, the handling of connection events, and the inbound message drain
//! that mutates the lobby and produces the messages to send back out.
use vstd::prelude::*;

use crate::codec::{decode_message, wire_decode};
use crate::host::HostState;
use crate::message::{MsgView, ServerMessages};
use crate::player::{spawn_position, PlayerData};
use crate::registry::{
    distinct_ids, find_index, ids_of, lemma_map_of_dom, lemma_map_of_index, lemma_map_of_len,
    lemma_map_of_push, lemma_map_of_remove, lemma_map_of_update, map_of,
};
use crate::Vec3Bits;
use vstd::pervasive::VecAdditionalExecFns;

verus! {

/// The authoritative registry of connected players, held by the host only:
/// one record per peer identity, updated by connection events and by
/// `PlayerMoved` snapshots, never shared outside the relay tick.
#[derive(Debug)]
pub struct Lobby {
    pub players: Vec<PlayerData>,
}

impl View for Lobby {
    type V = Map<u64, Vec3Bits>;

    /// The lobby as a map from peer identity to last-known position.
    open spec fn view(&self) -> Map<u64, Vec3Bits> {
        map_of(self.players@)
    }
}

impl Lobby {
    /// Well-formed: one record per identity.
    pub open spec fn wf(&self) -> bool {
        distinct_ids(self.players@)
    }

    /// The identities in the order their records are stored.
    pub open spec fn ids(&self) -> Seq<u64> {
        ids_of(self.players@)
    }

    /// An empty lobby.
    pub fn new() -> (r: Lobby)
        ensures
            r.wf(),
            r@ == Map::<u64, Vec3Bits>::empty(),
            r.ids() == Seq::<u64>::empty(),
    {
        let r = Lobby { players: Vec::new() };
        proof {
            assert(r.ids() =~= Seq::<u64>::empty());
        }
        r
    }

    /// Whether a record for `id` is present.
    pub fn contains(&self, id: u64) -> (r: bool)
        ensures
            r == self@.dom().contains(id),
    {
        proof {
            lemma_map_of_dom(self.players@);
        }
        match find_index(&self.players, id) {
            Some(i) => {
                proof {
                    assert(ids_of(self.players@)[i as int] == id);
                }
                true
            },
            None => false,
        }
    }

    /// How many players are connected.
    pub fn len(&self) -> (n: usize)
        requires
            self.wf(),
        ensures
            n == self@.dom().len(),
    {
        proof {
            lemma_map_of_len(self.players@);
        }
        self.players.len()
    }

    /// The last-known position of `id`, if connected.
    pub fn get_position(&self, id: u64) -> (r: Option<Vec3Bits>)
        requires
            self.wf(),
        ensures
            match r {
                Some(p) => self@.dom().contains(id) && self@[id] == p,
                None => !self@.dom().contains(id),
            },
    {
        proof {
            lemma_map_of_dom(self.players@);
        }
        match find_index(&self.players, id) {
            Some(i) => {
                proof {
                    lemma_map_of_index(self.players@, i as int);
                }
                Some(self.players[i].position)
            },
            None => None,
        }
    }
}

/// The host side of a session, as its composition root sets it up before
/// the first tick: an empty authoritative lobby, and the session role with
/// no transport stood up yet.
#[derive(Debug)]
pub struct Server {
    pub lobby: Lobby,
    pub host_state: crate::host::HostState,
}

impl Server {
    /// The state the host side starts every process with.
    pub fn build() -> (r: Server)
        ensures
            r.lobby.wf(),
            r.lobby@ == Map::<u64, Vec3Bits>::empty(),
            r.host_state.is_host == false,
            r.host_state.phase == crate::host::HostInitPhase::Uninitialized,
    {
        Server {
            lobby: Lobby::new(),
            host_state: HostState {
                is_host: false,
                phase: crate::host::HostInitPhase::Uninitialized,
            },
        }
    }
}

/// A message the host hands to the transport, with its audience.
#[derive(Debug, PartialEq)]
pub enum Outbound {
    /// To the one peer `dest`.
    To { dest: u64, message: ServerMessages },
    /// To every connected peer, the subject included.
    Broadcast { message: ServerMessages },
    /// To every connected peer but `except`.
    BroadcastOthers { except: u64, message: ServerMessages },
}

/// The mathematical value of an [`Outbound`] entry.
pub enum OutboundView {
    To { dest: u64, message: MsgView },
    Broadcast { message: MsgView },
    BroadcastOthers { except: u64, message: MsgView },
}

impl View for Outbound {
    type V = OutboundView;

    open spec fn view(&self) -> OutboundView {
        match self {
            Outbound::To { dest, message } => OutboundView::To { dest: *dest, message: message@ },
            Outbound::Broadcast { message } => OutboundView::Broadcast { message: message@ },
            Outbound::BroadcastOthers { except, message } => OutboundView::BroadcastOthers {
                except: *except,
                message: message@,
            },
        }
    }
}

/// One received payload, tagged with the peer the transport got it from.
pub struct InboundPacket {
    pub sender: u64,
    pub payload: Vec<u8>,
}

/// The lobby after one inbound client message: only a `PlayerMoved` for a
/// connected peer changes it, overwriting that peer's position; a snapshot
/// for an unknown identity is silently ignored (the peer is presumed to be
/// mid-disconnect), and no other inbound variant touches the lobby.
pub open spec fn lobby_after_client_msg(l: Map<u64, Vec3Bits>, m: MsgView) -> Map<u64, Vec3Bits> {
    match m {
        MsgView::PlayerMoved { id, position } => if l.dom().contains(id) {
            l.insert(id, position)
        } else {
            l
        },
        _ => l,
    }
}

/// What the host sends out for one inbound client message: an accepted
/// `PlayerMoved` is broadcast to all peers (the sender's own echo included,
/// harmless by idempotence); `ProjectileSpawned` and `PlayerDeath` are
/// re-broadcast verbatim without touching the lobby; `TestMessage` is only
/// logged; any other inbound variant is unexpected and ignored.
pub open spec fn host_outbound(l: Map<u64, Vec3Bits>, m: MsgView) -> Seq<OutboundView> {
    match m {
        MsgView::PlayerMoved { id, position } => if l.dom().contains(id) {
            seq![OutboundView::Broadcast { message: m }]
        } else {
            Seq::empty()
        },
        MsgView::ProjectileSpawned { id, position, direction } => seq![
            OutboundView::Broadcast { message: m },
        ],
        MsgView::PlayerDeath { id } => seq![OutboundView::Broadcast { message: m }],
        _ => Seq::empty(),
    }
}

/// Applies one decoded client message to the lobby and returns what to send
/// out, as [`lobby_after_client_msg`] and [`host_outbound`] state. The
/// sender's identity plays no part in the decision (messages carry their
/// subject's identity); it is taken only so a diagnostic edge can attribute
/// `TestMessage` text to a peer.
pub fn apply_client_message(lobby: &mut Lobby, sender: u64, message: ServerMessages) -> (out: Vec<
    Outbound,
>)
    requires
        old(lobby).wf(),
    ensures
        final(lobby).wf(),
        final(lobby)@ == lobby_after_client_msg(old(lobby)@, message@),
        final(lobby).ids() == old(lobby).ids(),
        out@.map_values(|o: Outbound| o@) == host_outbound(old(lobby)@, message@),
{
    let mut out: Vec<Outbound> = Vec::new();
    match &message {
        ServerMessages::PlayerMoved { id, position } => {
            proof {
                lemma_map_of_dom(lobby.players@);
            }
            match find_index(&lobby.players, *id) {
                Some(i) => {
                    let p = PlayerData { id: *id, position: *position };
                    proof {
                        assert(ids_of(lobby.players@)[i as int] == *id);
                        lemma_map_of_update(lobby.players@, i as int, p);
                    }
                    lobby.players.set(i, p);
                    out.push(
                        Outbound::Broadcast {
                            message: ServerMessages::PlayerMoved { id: *id, position: *position },
                        },
                    );
                },
                None => {},
            }
        },
        ServerMessages::ProjectileSpawned { id, position, direction } => {
            out.push(
                Outbound::Broadcast {
                    message: ServerMessages::ProjectileSpawned {
                        id: *id,
                        position: *position,
                        direction: *direction,
                    },
                },
            );
        },
        ServerMessages::PlayerDeath { id } => {
            out.push(Outbound::Broadcast { message: ServerMessages::PlayerDeath { id: *id } });
        },
        _ => {},
    }
    proof {
        assert(out@.map_values(|o: Outbound| o@) =~= host_outbound(old(lobby)@, message@));
    }
    out
}

/// The catch-up burst for a newly connected peer: one `PlayerConnected` per
/// identity in the registry, addressed to the newcomer, in registry order.
pub open spec fn catch_up_msgs(ids: Seq<u64>, registry: Map<u64, Vec3Bits>, dest: u64) -> Seq<
    OutboundView,
> {
    ids.map_values(
        |pid: u64|
            OutboundView::To {
                dest,
                message: MsgView::PlayerConnected { id: pid, position: registry[pid] },
            },
    )
}

/// Inserts a record for the newly connected peer at the spawn position, and
/// produces the catch-up burst toward it — one `PlayerConnected` per record
/// now present, its own included — followed by one `PlayerConnected`
/// announcing the newcomer to every previously connected peer.
pub fn on_peer_connected(lobby: &mut Lobby, id: u64) -> (out: Vec<Outbound>)
    requires
        old(lobby).wf(),
    ensures
        final(lobby).wf(),
        final(lobby)@ == old(lobby)@.insert(id, spawn_position()),
        final(lobby).ids() == if old(lobby)@.dom().contains(id) {
            old(lobby).ids()
        } else {
            old(lobby).ids().push(id)
        },
        out@.map_values(|o: Outbound| o@) == catch_up_msgs(
            final(lobby).ids(),
            final(lobby)@,
            id,
        ).push(
            (OutboundView::BroadcastOthers {
                except: id,
                message: (MsgView::PlayerConnected { id, position: spawn_position() }),
            }),
        ),
{
    let record = PlayerData::new(id);
    proof {
        lemma_map_of_dom(lobby.players@);
    }
    match find_index(&lobby.players, id) {
        Some(i) => {
            proof {
                assert(ids_of(lobby.players@)[i as int] == id);
                lemma_map_of_update(lobby.players@, i as int, record);
            }
            lobby.players.set(i, record);
        },
        None => {
            proof {
                lemma_map_of_push(lobby.players@, record);
            }
            lobby.players.push(record);
        },
    }
    let mut out: Vec<Outbound> = Vec::new();
    let n = lobby.players.len();
    for i in 0..n
        invariant
            n == lobby.players@.len(),
            lobby.wf(),
            out@.len() == i,
            forall|j: int|
                0 <= j < i ==> out@[j]@ == (OutboundView::To {
                    dest: id,
                    message: MsgView::PlayerConnected {
                        id: lobby.players@[j].id,
                        position: lobby.players@[j].position,
                    },
                }),
    {
        let p = lobby.players[i];
        out.push(
            Outbound::To {
                dest: id,
                message: ServerMessages::PlayerConnected { id: p.id, position: p.position },
            },
        );
    }
    out.push(
        Outbound::BroadcastOthers {
            except: id,
            message: ServerMessages::PlayerConnected { id, position: record.position },
        },
    );
    proof {
        assert forall|j: int| 0 <= j < lobby.players@.len() implies catch_up_msgs(
            lobby.ids(),
            lobby@,
            id,
        )[j] == out@[j]@ by {
            lemma_map_of_index(lobby.players@, j);
        }
        assert(out@.map_values(|o: Outbound| o@) =~= catch_up_msgs(lobby.ids(), lobby@, id).push(
            (OutboundView::BroadcastOthers {
                except: id,
                message: (MsgView::PlayerConnected { id, position: spawn_position() }),
            }),
        ));
    }
    out
}

/// Removes the departed peer's record, if any, and produces one
/// `PlayerDisconnected` broadcast to the remaining peers. A disconnect for an
/// identity that is already absent changes nothing and still broadcasts.
pub fn on_peer_disconnected(lobby: &mut Lobby, id: u64) -> (out: Vec<Outbound>)
    requires
        old(lobby).wf(),
    ensures
        final(lobby).wf(),
        final(lobby)@ == old(lobby)@.remove(id),
        !final(lobby)@.dom().contains(id),
        out@.map_values(|o: Outbound| o@) == seq![
            (OutboundView::Broadcast { message: (MsgView::PlayerDisconnected { id }) }),
        ],
{
    proof {
        lemma_map_of_dom(lobby.players@);
    }
    match find_index(&lobby.players, id) {
        Some(i) => {
            proof {
                lemma_map_of_remove(lobby.players@, i as int);
            }
            lobby.players.remove(i);
        },
        None => {
            proof {
                assert(map_of(lobby.players@) =~= map_of(lobby.players@).remove(id));
            }
        },
    }
    proof {
        lemma_map_of_dom(lobby.players@);
    }
    let mut out: Vec<Outbound> = Vec::new();
    out.push(Outbound::Broadcast { message: ServerMessages::PlayerDisconnected { id } });
    proof {
        assert(out@.map_values(|o: Outbound| o@) =~= seq![
            (OutboundView::Broadcast { message: (MsgView::PlayerDisconnected { id }) }),
        ]);
    }
    out
}

/// The lobby after a whole burst of raw payloads is drained in order:
/// payloads that decode are applied one by one, payloads that do not are
/// dropped without effect.
pub open spec fn lobby_after_burst(l: Map<u64, Vec3Bits>, payloads: Seq<Seq<u8>>) -> Map<
    u64,
    Vec3Bits,
>
    decreases payloads.len(),
{
    if payloads.len() == 0 {
        l
    } else {
        let prev = lobby_after_burst(l, payloads.drop_last());
        match wire_decode(payloads.last()) {
            Some(m) => lobby_after_client_msg(prev, m),
            None => prev,
        }
    }
}

/// Everything the host sends out for a whole burst of raw payloads, in order;
/// payloads that do not decode contribute nothing.
pub open spec fn outbound_after_burst(l: Map<u64, Vec3Bits>, payloads: Seq<Seq<u8>>) -> Seq<
    OutboundView,
>
    decreases payloads.len(),
{
    if payloads.len() == 0 {
        Seq::empty()
    } else {
        let prev_l = lobby_after_burst(l, payloads.drop_last());
        let prev_out = outbound_after_burst(l, payloads.drop_last());
        match wire_decode(payloads.last()) {
            Some(m) => prev_out + host_outbound(prev_l, m),
            None => prev_out,
        }
    }
}

/// The raw payloads of a burst, in arrival order.
pub open spec fn payloads_of(inbound: Seq<InboundPacket>) -> Seq<Seq<u8>> {
    inbound.map_values(|p: InboundPacket| p.payload@)
}

/// Drains one tick's inbound client messages: decodes each payload, applies
/// it to the lobby, and collects everything to send back out. A payload that
/// is not the encoding of any message is dropped there and then — it cannot
/// disturb the rest of the burst, the lobby, or the tick.
pub fn server_centralize_messages(lobby: &mut Lobby, inbound: &Vec<InboundPacket>) -> (out: Vec<
    Outbound,
>)
    requires
        old(lobby).wf(),
    ensures
        final(lobby).wf(),
        final(lobby)@ == lobby_after_burst(old(lobby)@, payloads_of(inbound@)),
        out@.map_values(|o: Outbound| o@) == outbound_after_burst(
            old(lobby)@,
            payloads_of(inbound@),
        ),
{
    let mut out: Vec<Outbound> = Vec::new();
    let n = inbound.len();
    for i in 0..n
        invariant
            n == inbound@.len(),
            lobby.wf(),
            lobby@ == lobby_after_burst(old(lobby)@, payloads_of(inbound@).take(i as int)),
            out@.map_values(|o: Outbound| o@) == outbound_after_burst(
                old(lobby)@,
                payloads_of(inbound@).take(i as int),
            ),
    {
        proof {
            assert(payloads_of(inbound@).take(i as int + 1).drop_last() =~= payloads_of(
                inbound@,
            ).take(i as int));
            assert(payloads_of(inbound@).take(i as int + 1).last() == inbound@[i as int].payload@);
        }
        match decode_message(&inbound[i].payload) {
            Some(message) => {
                let ghost out_before = out@;
                let mut extra = apply_client_message(lobby, inbound[i].sender, message);
                let ghost extra_view = extra@;
                out.append(&mut extra);
                proof {
                    assert(out@ =~= out_before + extra_view);
                    assert(out@.map_values(|o: Outbound| o@) =~= out_before.map_values(
                        |o: Outbound| o@,
                    ) + extra_view.map_values(|o: Outbound| o@));
                }
            },
            None => {},
        }
    }
    proof {
        assert(payloads_of(inbound@).take(n as int) =~= payloads_of(inbound@));
    }
    out
}

/// Idempotence of inbound handling: applying the same client message to the
/// lobby twice leaves exactly the state one application leaves. In
/// particular a repeated `PlayerMoved { id, p }` overwrites `id`'s position
/// with `p` again, changing nothing.
pub proof fn lemma_client_msg_idempotent(l: Map<u64, Vec3Bits>, m: MsgView)
    ensures
        lobby_after_client_msg(lobby_after_client_msg(l, m), m) == lobby_after_client_msg(l, m),
{
    match m {
        MsgView::PlayerMoved { id, position } => {
            if l.dom().contains(id) {
                assert(lobby_after_client_msg(lobby_after_client_msg(l, m), m)
                    =~= lobby_after_client_msg(l, m));
            }
        },
        _ => {},
    }
}

/// The lobby after the same client message is applied `n` times over.
pub open spec fn lobby_after_repeated_msg(l: Map<u64, Vec3Bits>, m: MsgView, n: nat) -> Map<
    u64,
    Vec3Bits,
>
    decreases n,
{
    if n == 0 {
        l
    } else {
        lobby_after_client_msg(lobby_after_repeated_msg(l, m, (n - 1) as nat), m)
    }
}

/// Applying the same client message any number of times leaves exactly the
/// state one application leaves.
pub proof fn lemma_client_msg_idempotent_n(l: Map<u64, Vec3Bits>, m: MsgView, n: nat)
    requires
        n >= 1,
    ensures
        lobby_after_repeated_msg(l, m, n) == lobby_after_client_msg(l, m),
    decreases n,
{
    if n > 1 {
        lemma_client_msg_idempotent_n(l, m, (n - 1) as nat);
        lemma_client_msg_idempotent(l, m);
    } else {
        assert(lobby_after_repeated_msg(l, m, 0) == l);
    }
}

/// Disconnect cleanup is final and repeatable: after a disconnect the
/// identity is absent, and a repeated disconnect for an absent identity
/// changes nothing.
pub proof fn lemma_disconnect_idempotent(l: Map<u64, Vec3Bits>, id: u64)
    ensures
        !l.remove(id).dom().contains(id),
        l.remove(id).remove(id) == l.remove(id),
{
    assert(l.remove(id).remove(id) =~= l.remove(id));
}

/// Whether an outbound entry is a `PlayerConnected` for `pid` addressed to
/// one peer.
pub open spec fn announces_to_one(o: OutboundView, pid: u64) -> bool {
    match o {
        OutboundView::To { dest, message } => match message {
            MsgView::PlayerConnected { id, position } => id == pid,
            _ => false,
        },
        _ => false,
    }
}

/// Catch-up completeness: the burst a newcomer receives holds exactly one
/// `PlayerConnected` for each identity present in the registry — at least
/// one because every present identity appears, at most one because the
/// identities are pairwise distinct — which a well-formed lobby's `ids()`
/// satisfy, by `lemma_distinct_ids_no_duplicates`. (The single
/// `BroadcastOthers` entry produced beside the burst is what announces the
/// newcomer exactly once to every previously connected peer.)
pub proof fn lemma_catch_up_completeness(
    ids: Seq<u64>,
    registry: Map<u64, Vec3Bits>,
    dest: u64,
    pid: u64,
)
    requires
        ids.no_duplicates(),
        ids.contains(pid),
    ensures
        exists|i: int|
            0 <= i < catch_up_msgs(ids, registry, dest).len() && announces_to_one(
                #[trigger] catch_up_msgs(ids, registry, dest)[i],
                pid,
            ),
        forall|i: int, j: int|
            #![trigger catch_up_msgs(ids, registry, dest)[i], catch_up_msgs(ids, registry, dest)[j]]
            0 <= i < catch_up_msgs(ids, registry, dest).len() && 0 <= j < catch_up_msgs(
                ids,
                registry,
                dest,
            ).len() && announces_to_one(catch_up_msgs(ids, registry, dest)[i], pid)
                && announces_to_one(catch_up_msgs(ids, registry, dest)[j], pid) ==> i == j,
{
    let burst = catch_up_msgs(ids, registry, dest);
    let w = choose|w: int| 0 <= w < ids.len() && ids[w] == pid;
    assert(announces_to_one(burst[w], pid));
    assert forall|i: int, j: int|
        0 <= i < burst.len() && 0 <= j < burst.len() && announces_to_one(#[trigger] burst[i], pid)
            && announces_to_one(#[trigger] burst[j], pid) implies i == j by {
        assert(ids[i] == pid && ids[j] == pid);
    }
}

} // verus!
