use game_test::codec::encode_message;
use game_test::message::ServerMessages;
use game_test::server::{
    apply_client_message, on_peer_connected, on_peer_disconnected, server_centralize_messages,
    InboundPacket, Lobby, Outbound,
};
use game_test::Vec3Bits;

fn v3(x: f32, y: f32, z: f32) -> Vec3Bits {
    Vec3Bits { x: x.to_bits(), y: y.to_bits(), z: z.to_bits() }
}

fn origin() -> Vec3Bits {
    Vec3Bits { x: 0, y: 0, z: 0 }
}

#[test]
fn first_connect_inserts_and_announces() {
    let mut lobby = Lobby::new();
    let out = on_peer_connected(&mut lobby, 100);
    assert_eq!(lobby.len(), 1);
    assert_eq!(lobby.get_position(100), Some(origin()));
    assert_eq!(
        out,
        vec![
            Outbound::To {
                dest: 100,
                message: ServerMessages::PlayerConnected { id: 100, position: origin() },
            },
            Outbound::BroadcastOthers {
                except: 100,
                message: ServerMessages::PlayerConnected { id: 100, position: origin() },
            },
        ]
    );
}

#[test]
fn catch_up_burst_is_complete_and_exact() {
    let mut lobby = Lobby::new();
    on_peer_connected(&mut lobby, 100);
    on_peer_connected(&mut lobby, 200);
    let out = on_peer_connected(&mut lobby, 300);
    // One PlayerConnected per present identity, the newcomer's own included,
    // addressed to the newcomer; then one announcement to everyone else.
    assert_eq!(out.len(), 4);
    for id in [100u64, 200, 300] {
        let matching = out
            .iter()
            .filter(|o| {
                matches!(
                    o,
                    Outbound::To { dest: 300, message: ServerMessages::PlayerConnected { id: got, .. } }
                    if *got == id
                )
            })
            .count();
        assert_eq!(matching, 1);
    }
    assert_eq!(
        out[3],
        Outbound::BroadcastOthers {
            except: 300,
            message: ServerMessages::PlayerConnected { id: 300, position: origin() },
        }
    );
}

#[test]
fn player_moved_updates_and_broadcasts() {
    let mut lobby = Lobby::new();
    on_peer_connected(&mut lobby, 100);
    let p = v3(1.0, 0.0, 0.0);
    let out = apply_client_message(
        &mut lobby,
        100,
        ServerMessages::PlayerMoved { id: 100, position: p },
    );
    assert_eq!(lobby.get_position(100), Some(p));
    assert_eq!(
        out,
        vec![Outbound::Broadcast { message: ServerMessages::PlayerMoved { id: 100, position: p } }]
    );
}

#[test]
fn player_moved_unknown_identity_ignored() {
    let mut lobby = Lobby::new();
    on_peer_connected(&mut lobby, 100);
    let out = apply_client_message(
        &mut lobby,
        100,
        ServerMessages::PlayerMoved { id: 999, position: v3(1.0, 2.0, 3.0) },
    );
    assert_eq!(out, vec![]);
    assert_eq!(lobby.len(), 1);
    assert_eq!(lobby.get_position(100), Some(origin()));
    assert_eq!(lobby.get_position(999), None);
}

#[test]
fn player_moved_is_idempotent_on_lobby() {
    let p = v3(4.0, 5.0, 6.0);
    let msg = || ServerMessages::PlayerMoved { id: 100, position: p };

    let mut once = Lobby::new();
    on_peer_connected(&mut once, 100);
    apply_client_message(&mut once, 100, msg());

    let mut thrice = Lobby::new();
    on_peer_connected(&mut thrice, 100);
    apply_client_message(&mut thrice, 100, msg());
    apply_client_message(&mut thrice, 100, msg());
    apply_client_message(&mut thrice, 100, msg());

    assert_eq!(once.len(), thrice.len());
    assert_eq!(once.get_position(100), thrice.get_position(100));
}

#[test]
fn projectile_and_death_rebroadcast_verbatim_without_mutation() {
    let mut lobby = Lobby::new();
    on_peer_connected(&mut lobby, 100);
    let spawn = ServerMessages::ProjectileSpawned {
        id: 100,
        position: v3(0.0, 1.0, 0.0),
        direction: v3(0.0, 0.03, -1.0),
    };
    let out = apply_client_message(
        &mut lobby,
        100,
        ServerMessages::ProjectileSpawned {
            id: 100,
            position: v3(0.0, 1.0, 0.0),
            direction: v3(0.0, 0.03, -1.0),
        },
    );
    assert_eq!(out, vec![Outbound::Broadcast { message: spawn }]);
    assert_eq!(lobby.get_position(100), Some(origin()));

    let out = apply_client_message(&mut lobby, 100, ServerMessages::PlayerDeath { id: 100 });
    assert_eq!(
        out,
        vec![Outbound::Broadcast { message: ServerMessages::PlayerDeath { id: 100 } }]
    );
    assert_eq!(lobby.len(), 1);
}

#[test]
fn test_message_is_not_rebroadcast() {
    let mut lobby = Lobby::new();
    on_peer_connected(&mut lobby, 100);
    let out = apply_client_message(
        &mut lobby,
        100,
        ServerMessages::TestMessage { message: String::from("ping") },
    );
    assert_eq!(out, vec![]);
    assert_eq!(lobby.len(), 1);
}

#[test]
fn inbound_player_connected_is_ignored_by_host() {
    // The echo a client sends on first sight of a peer: not expected in this
    // direction, ignored without mutation or rebroadcast.
    let mut lobby = Lobby::new();
    on_peer_connected(&mut lobby, 100);
    let out = apply_client_message(
        &mut lobby,
        100,
        ServerMessages::PlayerConnected { id: 100, position: v3(9.0, 9.0, 9.0) },
    );
    assert_eq!(out, vec![]);
    assert_eq!(lobby.get_position(100), Some(origin()));
}

#[test]
fn disconnect_removes_and_repeat_is_noop() {
    let mut lobby = Lobby::new();
    on_peer_connected(&mut lobby, 100);
    on_peer_connected(&mut lobby, 200);
    let out = on_peer_disconnected(&mut lobby, 200);
    assert_eq!(
        out,
        vec![Outbound::Broadcast { message: ServerMessages::PlayerDisconnected { id: 200 } }]
    );
    assert_eq!(lobby.len(), 1);
    assert_eq!(lobby.get_position(200), None);

    let out = on_peer_disconnected(&mut lobby, 200);
    assert_eq!(
        out,
        vec![Outbound::Broadcast { message: ServerMessages::PlayerDisconnected { id: 200 } }]
    );
    assert_eq!(lobby.len(), 1);
    assert_eq!(lobby.get_position(100), Some(origin()));
}

#[test]
fn drain_applies_in_order_and_drops_malformed() {
    let mut lobby = Lobby::new();
    on_peer_connected(&mut lobby, 100);
    let p1 = v3(1.0, 0.0, 0.0);
    let p2 = v3(2.0, 0.0, 0.0);
    let inbound = vec![
        InboundPacket {
            sender: 100,
            payload: encode_message(&ServerMessages::PlayerMoved { id: 100, position: p1 }),
        },
        InboundPacket { sender: 100, payload: vec![9, 9, 9] },
        InboundPacket {
            sender: 100,
            payload: encode_message(&ServerMessages::PlayerMoved { id: 100, position: p2 }),
        },
    ];
    let out = server_centralize_messages(&mut lobby, &inbound);
    // The malformed payload is dropped; both snapshots are applied in order.
    assert_eq!(lobby.get_position(100), Some(p2));
    assert_eq!(
        out,
        vec![
            Outbound::Broadcast {
                message: ServerMessages::PlayerMoved { id: 100, position: p1 },
            },
            Outbound::Broadcast {
                message: ServerMessages::PlayerMoved { id: 100, position: p2 },
            },
        ]
    );
}

#[test]
fn drain_relays_distinct_senders_spawns() {
    let mut lobby = Lobby::new();
    on_peer_connected(&mut lobby, 1);
    on_peer_connected(&mut lobby, 2);
    on_peer_connected(&mut lobby, 3);
    let spawn = |id: u64| ServerMessages::ProjectileSpawned {
        id,
        position: v3(id as f32, 0.0, 0.0),
        direction: v3(0.0, 0.0, -1.0),
    };
    let inbound: Vec<InboundPacket> = [1u64, 2, 3]
        .iter()
        .map(|&id| InboundPacket { sender: id, payload: encode_message(&spawn(id)) })
        .collect();
    let out = server_centralize_messages(&mut lobby, &inbound);
    assert_eq!(
        out,
        vec![
            Outbound::Broadcast { message: spawn(1) },
            Outbound::Broadcast { message: spawn(2) },
            Outbound::Broadcast { message: spawn(3) },
        ]
    );
    assert_eq!(lobby.len(), 3);
}
