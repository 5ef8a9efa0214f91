use game_test::codec::{decode_message, encode_message};
use game_test::message::ServerMessages;
use game_test::Vec3Bits;

fn v3(x: f32, y: f32, z: f32) -> Vec3Bits {
    Vec3Bits { x: x.to_bits(), y: y.to_bits(), z: z.to_bits() }
}

#[test]
fn player_connected_round_trip() {
    let m = ServerMessages::PlayerConnected { id: 100, position: v3(1.5, -2.0, 3.25) };
    let bytes = encode_message(&m);
    assert_eq!(bytes.len(), 21);
    assert_eq!(decode_message(&bytes), Some(m));
}

#[test]
fn player_disconnected_round_trip() {
    let m = ServerMessages::PlayerDisconnected { id: u64::MAX };
    let bytes = encode_message(&m);
    assert_eq!(bytes.len(), 9);
    assert_eq!(decode_message(&bytes), Some(m));
}

#[test]
fn player_moved_round_trip() {
    let m = ServerMessages::PlayerMoved { id: 7, position: v3(-0.0, 123.456, f32::NAN) };
    let bytes = encode_message(&m);
    assert_eq!(bytes.len(), 21);
    // Even a NaN bit pattern round-trips exactly: the wire carries raw bits.
    assert_eq!(decode_message(&bytes), Some(m));
}

#[test]
fn projectile_spawned_round_trip() {
    let m = ServerMessages::ProjectileSpawned {
        id: 42,
        position: v3(0.5, 1.3, -9.81),
        direction: v3(0.0, 0.03, -1.0),
    };
    let bytes = encode_message(&m);
    assert_eq!(bytes.len(), 33);
    assert_eq!(decode_message(&bytes), Some(m));
}

#[test]
fn player_death_round_trip() {
    let m = ServerMessages::PlayerDeath { id: 0 };
    let bytes = encode_message(&m);
    assert_eq!(bytes.len(), 9);
    assert_eq!(decode_message(&bytes), Some(m));
}

#[test]
fn test_message_round_trip_unicode() {
    let m = ServerMessages::TestMessage { message: String::from("héllo → мир") };
    let bytes = encode_message(&m);
    assert_eq!(decode_message(&bytes), Some(m));
}

#[test]
fn test_message_round_trip_empty() {
    let m = ServerMessages::TestMessage { message: String::new() };
    let bytes = encode_message(&m);
    assert_eq!(bytes.len(), 9);
    assert_eq!(decode_message(&bytes), Some(m));
}

#[test]
fn identity_encodes_little_endian_after_tag() {
    let m = ServerMessages::PlayerDisconnected { id: 0x0102030405060708 };
    let bytes = encode_message(&m);
    assert_eq!(bytes, vec![1, 0x08, 0x07, 0x06, 0x05, 0x04, 0x03, 0x02, 0x01]);
}

#[test]
fn position_components_encode_in_order() {
    let m = ServerMessages::PlayerMoved { id: 1, position: Vec3Bits { x: 5, y: 6, z: 7 } };
    let bytes = encode_message(&m);
    assert_eq!(
        bytes,
        vec![2, 1, 0, 0, 0, 0, 0, 0, 0, 5, 0, 0, 0, 6, 0, 0, 0, 7, 0, 0, 0]
    );
}

#[test]
fn text_encodes_length_prefixed_utf8() {
    let m = ServerMessages::TestMessage { message: String::from("hé") };
    let bytes = encode_message(&m);
    assert_eq!(bytes, vec![4, 3, 0, 0, 0, 0, 0, 0, 0, 0x68, 0xC3, 0xA9]);
}

#[test]
fn decode_rejects_empty_payload() {
    assert_eq!(decode_message(&Vec::new()), None);
}

#[test]
fn decode_rejects_unknown_tag() {
    let bytes = vec![9, 1, 0, 0, 0, 0, 0, 0, 0];
    assert_eq!(decode_message(&bytes), None);
}

#[test]
fn decode_rejects_truncated_payload() {
    let m = ServerMessages::PlayerConnected { id: 3, position: v3(0.0, 0.0, 0.0) };
    let mut bytes = encode_message(&m);
    bytes.pop();
    assert_eq!(decode_message(&bytes), None);
}

#[test]
fn decode_rejects_trailing_bytes() {
    let m = ServerMessages::PlayerDeath { id: 3 };
    let mut bytes = encode_message(&m);
    bytes.push(0);
    assert_eq!(decode_message(&bytes), None);
}

#[test]
fn decode_rejects_wrong_length_prefix() {
    // Tag and prefix claim two text bytes; only one follows.
    let bytes = vec![4, 2, 0, 0, 0, 0, 0, 0, 0, 0x61];
    assert_eq!(decode_message(&bytes), None);
}

#[test]
fn decode_rejects_invalid_utf8_text() {
    // A lone continuation byte is not UTF-8; the payload must be dropped,
    // not smuggled through as text.
    let bytes = vec![4, 1, 0, 0, 0, 0, 0, 0, 0, 0xFF];
    assert_eq!(decode_message(&bytes), None);
}
