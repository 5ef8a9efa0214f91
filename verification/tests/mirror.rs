use game_test::client::{
    apply_server_message, client_sync_players, player_moved_payload, projectile_spawned_payload,
    ClientEffect, Entities,
};
use game_test::codec::{decode_message, encode_message};
use game_test::message::ServerMessages;
use game_test::projectile::{Replicas, PROJECTILE_LIFETIME_MS};
use game_test::Vec3Bits;

fn v3(x: f32, y: f32, z: f32) -> Vec3Bits {
    Vec3Bits { x: x.to_bits(), y: y.to_bits(), z: z.to_bits() }
}

const LOCAL: u64 = 1;

#[test]
fn first_sight_creates_entry_and_echoes() {
    let mut mirror = Entities::new();
    let mut replicas = Replicas::new();
    let p = v3(3.0, 0.0, 0.0);
    let fx = apply_server_message(
        &mut mirror,
        &mut replicas,
        LOCAL,
        ServerMessages::PlayerConnected { id: 7, position: p },
        0,
    );
    assert_eq!(mirror.len(), 1);
    assert_eq!(mirror.get_position(7), Some(p));
    assert_eq!(
        fx,
        vec![
            ClientEffect::SpawnRemotePlayer { id: 7, position: p },
            ClientEffect::SendToHost {
                message: ServerMessages::PlayerConnected { id: 7, position: p },
            },
        ]
    );
}

#[test]
fn repeated_connected_changes_nothing() {
    let mut mirror = Entities::new();
    let mut replicas = Replicas::new();
    let p = v3(3.0, 0.0, 0.0);
    let connected = || ServerMessages::PlayerConnected { id: 7, position: p };
    apply_server_message(&mut mirror, &mut replicas, LOCAL, connected(), 0);
    let fx = apply_server_message(&mut mirror, &mut replicas, LOCAL, connected(), 0);
    assert_eq!(fx, vec![]);
    assert_eq!(mirror.len(), 1);
    assert_eq!(mirror.get_position(7), Some(p));
}

#[test]
fn own_connected_is_ignored() {
    let mut mirror = Entities::new();
    let mut replicas = Replicas::new();
    let fx = apply_server_message(
        &mut mirror,
        &mut replicas,
        LOCAL,
        ServerMessages::PlayerConnected { id: LOCAL, position: v3(1.0, 1.0, 1.0) },
        0,
    );
    assert_eq!(fx, vec![]);
    assert_eq!(mirror.len(), 0);
    assert_eq!(mirror.get_position(LOCAL), None);
}

#[test]
fn own_projectile_is_not_replicated_again() {
    let mut mirror = Entities::new();
    let mut replicas = Replicas::new();
    let fx = apply_server_message(
        &mut mirror,
        &mut replicas,
        LOCAL,
        ServerMessages::ProjectileSpawned {
            id: LOCAL,
            position: v3(0.0, 1.0, 0.0),
            direction: v3(0.0, 0.0, -1.0),
        },
        77,
    );
    assert_eq!(fx, vec![]);
    assert_eq!(replicas.len(), 0);
}

#[test]
fn remote_projectile_spawns_full_replica() {
    let mut mirror = Entities::new();
    let mut replicas = Replicas::new();
    let p = v3(0.0, 1.0, 0.0);
    let d = v3(0.0, 0.03, -1.0);
    let fx = apply_server_message(
        &mut mirror,
        &mut replicas,
        LOCAL,
        ServerMessages::ProjectileSpawned { id: 9, position: p, direction: d },
        77,
    );
    assert_eq!(fx, vec![ClientEffect::SpawnProjectileReplica { id: 9, position: p, direction: d }]);
    assert_eq!(replicas.len(), 1);
    let r = replicas.get(0);
    assert_eq!(r.owner, 9);
    assert_eq!(r.position, p);
    assert_eq!(r.direction, d);
    assert_eq!(r.replica_id, 77);
    assert_eq!(r.lifetime.remaining_ms, PROJECTILE_LIFETIME_MS);
}

#[test]
fn moved_updates_existing_entry_only() {
    let mut mirror = Entities::new();
    let mut replicas = Replicas::new();
    let p0 = v3(3.0, 0.0, 0.0);
    apply_server_message(
        &mut mirror,
        &mut replicas,
        LOCAL,
        ServerMessages::PlayerConnected { id: 7, position: p0 },
        0,
    );
    let p1 = v3(4.0, 0.0, 0.0);
    let fx = apply_server_message(
        &mut mirror,
        &mut replicas,
        LOCAL,
        ServerMessages::PlayerMoved { id: 7, position: p1 },
        0,
    );
    assert_eq!(fx, vec![ClientEffect::MoveRemotePlayer { id: 7, position: p1 }]);
    assert_eq!(mirror.get_position(7), Some(p1));

    let fx = apply_server_message(
        &mut mirror,
        &mut replicas,
        LOCAL,
        ServerMessages::PlayerMoved { id: 8, position: p1 },
        0,
    );
    assert_eq!(fx, vec![]);
    assert_eq!(mirror.len(), 1);
}

#[test]
fn moved_is_idempotent_on_mirror() {
    let p = v3(4.0, 5.0, 6.0);
    let run = |times: usize| {
        let mut mirror = Entities::new();
        let mut replicas = Replicas::new();
        apply_server_message(
            &mut mirror,
            &mut replicas,
            LOCAL,
            ServerMessages::PlayerConnected { id: 7, position: v3(0.0, 0.0, 0.0) },
            0,
        );
        for _ in 0..times {
            apply_server_message(
                &mut mirror,
                &mut replicas,
                LOCAL,
                ServerMessages::PlayerMoved { id: 7, position: p },
                0,
            );
        }
        (mirror.len(), mirror.get_position(7))
    };
    assert_eq!(run(1), run(5));
}

#[test]
fn disconnected_removes_and_repeat_is_noop() {
    let mut mirror = Entities::new();
    let mut replicas = Replicas::new();
    apply_server_message(
        &mut mirror,
        &mut replicas,
        LOCAL,
        ServerMessages::PlayerConnected { id: 7, position: v3(0.0, 0.0, 0.0) },
        0,
    );
    let fx = apply_server_message(
        &mut mirror,
        &mut replicas,
        LOCAL,
        ServerMessages::PlayerDisconnected { id: 7 },
        0,
    );
    assert_eq!(fx, vec![ClientEffect::DespawnRemotePlayer { id: 7 }]);
    assert_eq!(mirror.len(), 0);
    assert_eq!(mirror.get_position(7), None);

    let fx = apply_server_message(
        &mut mirror,
        &mut replicas,
        LOCAL,
        ServerMessages::PlayerDisconnected { id: 7 },
        0,
    );
    assert_eq!(fx, vec![]);
    assert_eq!(mirror.len(), 0);
}

#[test]
fn death_removes_remote_but_never_self() {
    let mut mirror = Entities::new();
    let mut replicas = Replicas::new();
    apply_server_message(
        &mut mirror,
        &mut replicas,
        LOCAL,
        ServerMessages::PlayerConnected { id: 7, position: v3(0.0, 0.0, 0.0) },
        0,
    );
    let fx = apply_server_message(
        &mut mirror,
        &mut replicas,
        LOCAL,
        ServerMessages::PlayerDeath { id: LOCAL },
        0,
    );
    assert_eq!(fx, vec![]);
    assert_eq!(mirror.len(), 1);

    let fx = apply_server_message(
        &mut mirror,
        &mut replicas,
        LOCAL,
        ServerMessages::PlayerDeath { id: 7 },
        0,
    );
    assert_eq!(fx, vec![ClientEffect::DespawnRemotePlayer { id: 7 }]);
    assert_eq!(mirror.len(), 0);
}

#[test]
fn relay_fidelity_three_remote_spawns() {
    // Three announcements from distinct senders in one tick become three
    // independent replicas with the announced positions and directions; the
    // local peer's own echoed announcement adds nothing.
    let mut mirror = Entities::new();
    let mut replicas = Replicas::new();
    let spawn = |id: u64| ServerMessages::ProjectileSpawned {
        id,
        position: v3(id as f32, 1.0, 0.0),
        direction: v3(0.0, 0.0, -(id as f32)),
    };
    let inbound: Vec<Vec<u8>> = [2u64, 3, LOCAL, 4]
        .iter()
        .map(|&id| encode_message(&spawn(id)))
        .collect();
    let replica_ids = vec![10, 11, 12, 13];
    let fx = client_sync_players(&mut mirror, &mut replicas, LOCAL, &inbound, &replica_ids);
    assert_eq!(replicas.len(), 3);
    assert_eq!(fx.len(), 3);
    for (slot, (id, rid)) in [(2u64, 10u64), (3, 11), (4, 13)].iter().enumerate() {
        let r = replicas.get(slot);
        assert_eq!(r.owner, *id);
        assert_eq!(r.position, v3(*id as f32, 1.0, 0.0));
        assert_eq!(r.direction, v3(0.0, 0.0, -(*id as f32)));
        assert_eq!(r.replica_id, *rid);
        assert_eq!(r.lifetime.remaining_ms, PROJECTILE_LIFETIME_MS);
    }
}

#[test]
fn sync_drops_malformed_and_keeps_rest() {
    let mut mirror = Entities::new();
    let mut replicas = Replicas::new();
    let p = v3(5.0, 0.0, 0.0);
    let inbound = vec![
        encode_message(&ServerMessages::PlayerConnected { id: 7, position: p }),
        vec![0xFF, 0xFF],
        encode_message(&ServerMessages::PlayerMoved { id: 7, position: v3(6.0, 0.0, 0.0) }),
    ];
    let replica_ids = vec![0, 0, 0];
    let fx = client_sync_players(&mut mirror, &mut replicas, LOCAL, &inbound, &replica_ids);
    assert_eq!(mirror.get_position(7), Some(v3(6.0, 0.0, 0.0)));
    assert_eq!(fx.len(), 3);
}

#[test]
fn payload_builders_encode_exactly() {
    let p = v3(1.0, 2.0, 3.0);
    let d = v3(0.0, 0.0, -1.0);
    assert_eq!(
        player_moved_payload(5, p),
        encode_message(&ServerMessages::PlayerMoved { id: 5, position: p })
    );
    assert_eq!(
        decode_message(&projectile_spawned_payload(5, p, d)),
        Some(ServerMessages::ProjectileSpawned { id: 5, position: p, direction: d })
    );
}
