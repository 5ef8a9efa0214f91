//! The wire encoding of the message protocol: a flat binary layout with a
//! one-byte tag, identities as little-endian 64-bit integers, vectors as
//! three little-endian 32-bit components, and text as length-prefixed UTF-8.
//!
//! The encoder and decoder are verified against the specification functions
//! [`encoded`] and [`wire_decode`], and the two laws [`lemma_wire_round_trip`]
//! and [`lemma_wire_sound`] state that every message round-trips exactly and
//! that a byte string decodes to at most one message.
use vstd::prelude::*;

use vstd::slice::{slice_subrange, slice_to_vec};
use vstd::string::StrSliceExecFns;
use vstd::utf8::{decode_utf8, encode_utf8, valid_utf8};
use vstd::utf8::{decode_utf8_encode_utf8, encode_utf8_decode_utf8, encode_utf8_valid_utf8};

use crate::message::{MsgView, ServerMessages};
use crate::Vec3Bits;

verus! {

pub const TAG_PLAYER_CONNECTED: u8 = 0;

pub const TAG_PLAYER_DISCONNECTED: u8 = 1;

pub const TAG_PLAYER_MOVED: u8 = 2;

pub const TAG_PROJECTILE_SPAWNED: u8 = 3;

pub const TAG_TEST_MESSAGE: u8 = 4;

pub const TAG_PLAYER_DEATH: u8 = 5;

/// The little-endian bytes of a 32-bit integer.
pub open spec fn u32_le(v: u32) -> Seq<u8> {
    seq![
        (v & 0xff) as u8,
        ((v >> 8) & 0xff) as u8,
        ((v >> 16) & 0xff) as u8,
        ((v >> 24) & 0xff) as u8,
    ]
}

/// The 32-bit integer read from four little-endian bytes.
pub open spec fn u32_from_le(s: Seq<u8>) -> u32
    recommends
        s.len() == 4,
{
    (s[0] as u32) | ((s[1] as u32) << 8) | ((s[2] as u32) << 16) | ((s[3] as u32) << 24)
}

/// The little-endian bytes of a 64-bit integer.
pub open spec fn u64_le(v: u64) -> Seq<u8> {
    seq![
        (v & 0xff) as u8,
        ((v >> 8) & 0xff) as u8,
        ((v >> 16) & 0xff) as u8,
        ((v >> 24) & 0xff) as u8,
        ((v >> 32) & 0xff) as u8,
        ((v >> 40) & 0xff) as u8,
        ((v >> 48) & 0xff) as u8,
        ((v >> 56) & 0xff) as u8,
    ]
}

/// The 64-bit integer read from eight little-endian bytes.
pub open spec fn u64_from_le(s: Seq<u8>) -> u64
    recommends
        s.len() == 8,
{
    (s[0] as u64) | ((s[1] as u64) << 8) | ((s[2] as u64) << 16) | ((s[3] as u64) << 24)
        | ((s[4] as u64) << 32) | ((s[5] as u64) << 40) | ((s[6] as u64) << 48) | ((s[7]
        as u64) << 56)
}

/// The little-endian bytes of a vector: x, then y, then z.
pub open spec fn v3_le(v: Vec3Bits) -> Seq<u8> {
    u32_le(v.x) + u32_le(v.y) + u32_le(v.z)
}

/// The vector read from twelve little-endian bytes.
pub open spec fn v3_from_le(s: Seq<u8>) -> Vec3Bits
    recommends
        s.len() == 12,
{
    Vec3Bits {
        x: u32_from_le(s.subrange(0, 4)),
        y: u32_from_le(s.subrange(4, 8)),
        z: u32_from_le(s.subrange(8, 12)),
    }
}

proof fn lemma_u32_le_from_le(v: u32)
    ensures
        u32_from_le(u32_le(v)) == v,
{
    assert(v & 0xff < 256 && (v >> 8) & 0xff < 256 && (v >> 16) & 0xff < 256 && (v >> 24) & 0xff
        < 256 && ((v & 0xff) | (((v >> 8) & 0xff) << 8) | (((v >> 16) & 0xff) << 16) | (((v >> 24)
        & 0xff) << 24)) == v) by (bit_vector);
}

proof fn lemma_u32_from_le_le(s: Seq<u8>)
    requires
        s.len() == 4,
    ensures
        u32_le(u32_from_le(s)) == s,
{
    let c0 = s[0] as u32;
    let c1 = s[1] as u32;
    let c2 = s[2] as u32;
    let c3 = s[3] as u32;
    let v = u32_from_le(s);
    assert((c0 | (c1 << 8) | (c2 << 16) | (c3 << 24)) & 0xff == c0 && ((c0 | (c1 << 8) | (c2 << 16)
        | (c3 << 24)) >> 8) & 0xff == c1 && ((c0 | (c1 << 8) | (c2 << 16) | (c3 << 24)) >> 16)
        & 0xff == c2 && ((c0 | (c1 << 8) | (c2 << 16) | (c3 << 24)) >> 24) & 0xff == c3)
        by (bit_vector)
        requires
            c0 < 256 && c1 < 256 && c2 < 256 && c3 < 256,
    ;
    assert(u32_le(v) =~= s);
}

proof fn lemma_u64_le_from_le(v: u64)
    ensures
        u64_from_le(u64_le(v)) == v,
{
    assert(v & 0xff < 256 && (v >> 8) & 0xff < 256 && (v >> 16) & 0xff < 256 && (v >> 24) & 0xff
        < 256 && (v >> 32) & 0xff < 256 && (v >> 40) & 0xff < 256 && (v >> 48) & 0xff < 256 && (v
        >> 56) & 0xff < 256 && ((v & 0xff) | (((v >> 8) & 0xff) << 8) | (((v >> 16) & 0xff) << 16)
        | (((v >> 24) & 0xff) << 24) | (((v >> 32) & 0xff) << 32) | (((v >> 40) & 0xff) << 40) | ((
        (v >> 48) & 0xff) << 48) | (((v >> 56) & 0xff) << 56)) == v) by (bit_vector);
}

proof fn lemma_u64_from_le_le(s: Seq<u8>)
    requires
        s.len() == 8,
    ensures
        u64_le(u64_from_le(s)) == s,
{
    let c0 = s[0] as u64;
    let c1 = s[1] as u64;
    let c2 = s[2] as u64;
    let c3 = s[3] as u64;
    let c4 = s[4] as u64;
    let c5 = s[5] as u64;
    let c6 = s[6] as u64;
    let c7 = s[7] as u64;
    let v = u64_from_le(s);
    let w = c0 | (c1 << 8) | (c2 << 16) | (c3 << 24) | (c4 << 32) | (c5 << 40) | (c6 << 48) | (c7
        << 56);
    assert(w == c0 | (c1 << 8) | (c2 << 16) | (c3 << 24) | (c4 << 32) | (c5 << 40) | (c6 << 48) | (
    c7 << 56) ==> (w & 0xff == c0 && (w >> 8) & 0xff == c1 && (w >> 16) & 0xff == c2 && (w >> 24)
        & 0xff == c3 && (w >> 32) & 0xff == c4 && (w >> 40) & 0xff == c5 && (w >> 48) & 0xff == c6
        && (w >> 56) & 0xff == c7)) by (bit_vector)
        requires
            c0 < 256 && c1 < 256 && c2 < 256 && c3 < 256 && c4 < 256 && c5 < 256 && c6 < 256 && c7
                < 256,
    ;
    assert(u64_le(v) =~= s);
}

proof fn lemma_v3_le_from_le(v: Vec3Bits)
    ensures
        v3_from_le(v3_le(v)) == v,
{
    let s = v3_le(v);
    assert(s.subrange(0, 4) =~= u32_le(v.x));
    assert(s.subrange(4, 8) =~= u32_le(v.y));
    assert(s.subrange(8, 12) =~= u32_le(v.z));
    lemma_u32_le_from_le(v.x);
    lemma_u32_le_from_le(v.y);
    lemma_u32_le_from_le(v.z);
}

proof fn lemma_v3_from_le_le(s: Seq<u8>)
    requires
        s.len() == 12,
    ensures
        v3_le(v3_from_le(s)) == s,
{
    lemma_u32_from_le_le(s.subrange(0, 4));
    lemma_u32_from_le_le(s.subrange(4, 8));
    lemma_u32_from_le_le(s.subrange(8, 12));
    assert(v3_le(v3_from_le(s)) =~= s);
}

/// The byte encoding of a message.
pub open spec fn encoded(m: MsgView) -> Seq<u8> {
    match m {
        MsgView::PlayerConnected { id, position } => seq![TAG_PLAYER_CONNECTED] + u64_le(id)
            + v3_le(position),
        MsgView::PlayerDisconnected { id } => seq![TAG_PLAYER_DISCONNECTED] + u64_le(id),
        MsgView::PlayerMoved { id, position } => seq![TAG_PLAYER_MOVED] + u64_le(id) + v3_le(
            position,
        ),
        MsgView::ProjectileSpawned { id, position, direction } => seq![TAG_PROJECTILE_SPAWNED]
            + u64_le(id) + v3_le(position) + v3_le(direction),
        MsgView::TestMessage { message } => seq![TAG_TEST_MESSAGE] + u64_le(
            encode_utf8(message).len() as u64,
        ) + encode_utf8(message),
        MsgView::PlayerDeath { id } => seq![TAG_PLAYER_DEATH] + u64_le(id),
    }
}

/// A message whose encoding is representable on the wire: its text, if any,
/// encodes to no more bytes than a 64-bit length prefix can count. Every
/// message built by executable code satisfies this.
pub open spec fn msg_wf(m: MsgView) -> bool {
    match m {
        MsgView::TestMessage { message } => encode_utf8(message).len() <= u64::MAX,
        _ => true,
    }
}

/// The message a byte string decodes to, if any: `None` exactly when the
/// bytes are not the encoding of any message.
pub open spec fn wire_decode(b: Seq<u8>) -> Option<MsgView> {
    if b.len() == 0 {
        None
    } else if b[0] == TAG_PLAYER_CONNECTED {
        if b.len() == 21 {
            Some(
                MsgView::PlayerConnected {
                    id: u64_from_le(b.subrange(1, 9)),
                    position: v3_from_le(b.subrange(9, 21)),
                },
            )
        } else {
            None
        }
    } else if b[0] == TAG_PLAYER_DISCONNECTED {
        if b.len() == 9 {
            Some(MsgView::PlayerDisconnected { id: u64_from_le(b.subrange(1, 9)) })
        } else {
            None
        }
    } else if b[0] == TAG_PLAYER_MOVED {
        if b.len() == 21 {
            Some(
                MsgView::PlayerMoved {
                    id: u64_from_le(b.subrange(1, 9)),
                    position: v3_from_le(b.subrange(9, 21)),
                },
            )
        } else {
            None
        }
    } else if b[0] == TAG_PROJECTILE_SPAWNED {
        if b.len() == 33 {
            Some(
                MsgView::ProjectileSpawned {
                    id: u64_from_le(b.subrange(1, 9)),
                    position: v3_from_le(b.subrange(9, 21)),
                    direction: v3_from_le(b.subrange(21, 33)),
                },
            )
        } else {
            None
        }
    } else if b[0] == TAG_TEST_MESSAGE {
        if b.len() >= 9 && u64_from_le(b.subrange(1, 9)) == b.len() - 9 && valid_utf8(
            b.subrange(9, b.len() as int),
        ) {
            Some(MsgView::TestMessage { message: decode_utf8(b.subrange(9, b.len() as int)) })
        } else {
            None
        }
    } else if b[0] == TAG_PLAYER_DEATH {
        if b.len() == 9 {
            Some(MsgView::PlayerDeath { id: u64_from_le(b.subrange(1, 9)) })
        } else {
            None
        }
    } else {
        None
    }
}

/// Round trip: decoding the encoding of any representable message gives that
/// message back, every field exact. In particular the encoding is injective.
pub proof fn lemma_wire_round_trip(m: MsgView)
    requires
        msg_wf(m),
    ensures
        wire_decode(encoded(m)) == Some(m),
{
    let b = encoded(m);
    match m {
        MsgView::PlayerConnected { id, position } => {
            assert(b.subrange(1, 9) =~= u64_le(id));
            assert(b.subrange(9, 21) =~= v3_le(position));
            lemma_u64_le_from_le(id);
            lemma_v3_le_from_le(position);
        },
        MsgView::PlayerDisconnected { id } => {
            assert(b.subrange(1, 9) =~= u64_le(id));
            lemma_u64_le_from_le(id);
        },
        MsgView::PlayerMoved { id, position } => {
            assert(b.subrange(1, 9) =~= u64_le(id));
            assert(b.subrange(9, 21) =~= v3_le(position));
            lemma_u64_le_from_le(id);
            lemma_v3_le_from_le(position);
        },
        MsgView::ProjectileSpawned { id, position, direction } => {
            assert(b.subrange(1, 9) =~= u64_le(id));
            assert(b.subrange(9, 21) =~= v3_le(position));
            assert(b.subrange(21, 33) =~= v3_le(direction));
            lemma_u64_le_from_le(id);
            lemma_v3_le_from_le(position);
            lemma_v3_le_from_le(direction);
        },
        MsgView::TestMessage { message } => {
            let n = encode_utf8(message).len();
            assert(b.subrange(1, 9) =~= u64_le(n as u64));
            assert(b.subrange(9, b.len() as int) =~= encode_utf8(message));
            lemma_u64_le_from_le(n as u64);
            encode_utf8_valid_utf8(message);
            encode_utf8_decode_utf8(message);
        },
        MsgView::PlayerDeath { id } => {
            assert(b.subrange(1, 9) =~= u64_le(id));
            lemma_u64_le_from_le(id);
        },
    }
}

/// Soundness: whatever a byte string decodes to encodes back to exactly those
/// bytes, so a received payload is the encoding of at most one message.
pub proof fn lemma_wire_sound(b: Seq<u8>)
    ensures
        match wire_decode(b) {
            Some(m) => encoded(m) == b && msg_wf(m),
            None => true,
        },
{
    if wire_decode(b) is Some {
        let m = wire_decode(b)->Some_0;
        if b[0] == TAG_PLAYER_CONNECTED || b[0] == TAG_PLAYER_MOVED {
            lemma_u64_from_le_le(b.subrange(1, 9));
            lemma_v3_from_le_le(b.subrange(9, 21));
            assert(encoded(m) =~= b);
        } else if b[0] == TAG_PLAYER_DISCONNECTED || b[0] == TAG_PLAYER_DEATH {
            lemma_u64_from_le_le(b.subrange(1, 9));
            assert(encoded(m) =~= b);
        } else if b[0] == TAG_PROJECTILE_SPAWNED {
            lemma_u64_from_le_le(b.subrange(1, 9));
            lemma_v3_from_le_le(b.subrange(9, 21));
            lemma_v3_from_le_le(b.subrange(21, 33));
            assert(encoded(m) =~= b);
        } else {
            let payload = b.subrange(9, b.len() as int);
            lemma_u64_from_le_le(b.subrange(1, 9));
            decode_utf8_encode_utf8(payload);
            assert(encoded(m) =~= b);
        }
    }
}

fn push_u32_le(out: &mut Vec<u8>, v: u32)
    ensures
        final(out)@ == old(out)@ + u32_le(v),
{
    proof {
        assert(v & 0xff < 256 && (v >> 8) & 0xff < 256 && (v >> 16) & 0xff < 256 && (v >> 24)
            & 0xff < 256) by (bit_vector);
    }
    out.push((v & 0xff) as u8);
    out.push(((v >> 8) & 0xff) as u8);
    out.push(((v >> 16) & 0xff) as u8);
    out.push(((v >> 24) & 0xff) as u8);
    proof {
        assert(out@ =~= old(out)@ + u32_le(v));
    }
}

fn push_u64_le(out: &mut Vec<u8>, v: u64)
    ensures
        final(out)@ == old(out)@ + u64_le(v),
{
    proof {
        assert(v & 0xff < 256 && (v >> 8) & 0xff < 256 && (v >> 16) & 0xff < 256 && (v >> 24)
            & 0xff < 256 && (v >> 32) & 0xff < 256 && (v >> 40) & 0xff < 256 && (v >> 48) & 0xff
            < 256 && (v >> 56) & 0xff < 256) by (bit_vector);
    }
    out.push((v & 0xff) as u8);
    out.push(((v >> 8) & 0xff) as u8);
    out.push(((v >> 16) & 0xff) as u8);
    out.push(((v >> 24) & 0xff) as u8);
    out.push(((v >> 32) & 0xff) as u8);
    out.push(((v >> 40) & 0xff) as u8);
    out.push(((v >> 48) & 0xff) as u8);
    out.push(((v >> 56) & 0xff) as u8);
    proof {
        assert(out@ =~= old(out)@ + u64_le(v));
    }
}

fn push_v3_le(out: &mut Vec<u8>, v: Vec3Bits)
    ensures
        final(out)@ == old(out)@ + v3_le(v),
{
    push_u32_le(out, v.x);
    push_u32_le(out, v.y);
    push_u32_le(out, v.z);
    proof {
        assert(out@ =~= old(out)@ + v3_le(v));
    }
}

fn read_u32_le(bytes: &Vec<u8>, off: usize) -> (v: u32)
    requires
        off + 4 <= bytes@.len(),
    ensures
        v == u32_from_le(bytes@.subrange(off as int, off as int + 4)),
{
    let n = bytes.len();
    proof {
        assert(off + 4 <= n);
    }
    let v = (bytes[off] as u32) | ((bytes[off + 1] as u32) << 8) | ((bytes[off + 2] as u32) << 16)
        | ((bytes[off + 3] as u32) << 24);
    proof {
        let s = bytes@.subrange(off as int, off as int + 4);
        assert(s[0] == bytes@[off as int] && s[1] == bytes@[off as int + 1] && s[2] == bytes@[off
            as int + 2] && s[3] == bytes@[off as int + 3]);
    }
    v
}

fn read_u64_le(bytes: &Vec<u8>, off: usize) -> (v: u64)
    requires
        off + 8 <= bytes@.len(),
    ensures
        v == u64_from_le(bytes@.subrange(off as int, off as int + 8)),
{
    let n = bytes.len();
    proof {
        assert(off + 8 <= n);
    }
    let v = (bytes[off] as u64) | ((bytes[off + 1] as u64) << 8) | ((bytes[off + 2] as u64) << 16)
        | ((bytes[off + 3] as u64) << 24) | ((bytes[off + 4] as u64) << 32) | ((bytes[off + 5]
        as u64) << 40) | ((bytes[off + 6] as u64) << 48) | ((bytes[off + 7] as u64) << 56);
    proof {
        let s = bytes@.subrange(off as int, off as int + 8);
        assert(s[0] == bytes@[off as int] && s[1] == bytes@[off as int + 1] && s[2] == bytes@[off
            as int + 2] && s[3] == bytes@[off as int + 3] && s[4] == bytes@[off as int + 4] && s[5]
            == bytes@[off as int + 5] && s[6] == bytes@[off as int + 6] && s[7] == bytes@[off
            as int + 7]);
    }
    v
}

fn read_v3_le(bytes: &Vec<u8>, off: usize) -> (v: Vec3Bits)
    requires
        off + 12 <= bytes@.len(),
    ensures
        v == v3_from_le(bytes@.subrange(off as int, off as int + 12)),
{
    let n = bytes.len();
    proof {
        assert(off + 12 <= n);
    }
    let x = read_u32_le(bytes, off);
    let y = read_u32_le(bytes, off + 4);
    let z = read_u32_le(bytes, off + 8);
    proof {
        let s = bytes@.subrange(off as int, off as int + 12);
        assert(s.subrange(0, 4) =~= bytes@.subrange(off as int, off as int + 4));
        assert(s.subrange(4, 8) =~= bytes@.subrange(off as int + 4, off as int + 8));
        assert(s.subrange(8, 12) =~= bytes@.subrange(off as int + 8, off as int + 12));
    }
    Vec3Bits { x, y, z }
}

/// Relies on `String::from_utf8` of std: it succeeds exactly on input that is
/// valid UTF-8, and then returns the string whose characters are the decoded
/// Unicode scalar values, as vstd's UTF-8 model states them.
#[verifier::external_body]
fn string_from_utf8(bytes: Vec<u8>) -> (r: Option<String>)
    ensures
        match r {
            Some(s) => valid_utf8(bytes@) && s@ == decode_utf8(bytes@),
            None => !valid_utf8(bytes@),
        },
{
    match String::from_utf8(bytes) {
        Ok(s) => Some(s),
        Err(_) => None,
    }
}

/// Serializes a message to its wire bytes.
pub fn encode_message(m: &ServerMessages) -> (r: Vec<u8>)
    ensures
        r@ == encoded(m@),
        msg_wf(m@),
{
    let mut out: Vec<u8> = Vec::new();
    match m {
        ServerMessages::PlayerConnected { id, position } => {
            out.push(TAG_PLAYER_CONNECTED);
            push_u64_le(&mut out, *id);
            push_v3_le(&mut out, *position);
            proof {
                assert(out@ =~= encoded(m@));
            }
        },
        ServerMessages::PlayerDisconnected { id } => {
            out.push(TAG_PLAYER_DISCONNECTED);
            push_u64_le(&mut out, *id);
            proof {
                assert(out@ =~= encoded(m@));
            }
        },
        ServerMessages::PlayerMoved { id, position } => {
            out.push(TAG_PLAYER_MOVED);
            push_u64_le(&mut out, *id);
            push_v3_le(&mut out, *position);
            proof {
                assert(out@ =~= encoded(m@));
            }
        },
        ServerMessages::ProjectileSpawned { id, position, direction } => {
            out.push(TAG_PROJECTILE_SPAWNED);
            push_u64_le(&mut out, *id);
            push_v3_le(&mut out, *position);
            push_v3_le(&mut out, *direction);
            proof {
                assert(out@ =~= encoded(m@));
            }
        },
        ServerMessages::TestMessage { message } => {
            out.push(TAG_TEST_MESSAGE);
            let mut text_bytes = message.as_str().as_bytes_vec();
            push_u64_le(&mut out, text_bytes.len() as u64);
            out.append(&mut text_bytes);
            proof {
                assert(out@ =~= encoded(m@));
            }
        },
        ServerMessages::PlayerDeath { id } => {
            out.push(TAG_PLAYER_DEATH);
            push_u64_le(&mut out, *id);
            proof {
                assert(out@ =~= encoded(m@));
            }
        },
    }
    out
}

/// Deserializes wire bytes back to a message. Returns `None` exactly when the
/// bytes are not the encoding of any message; a malformed payload is thereby
/// rejected without disturbing anything else.
pub fn decode_message(bytes: &Vec<u8>) -> (r: Option<ServerMessages>)
    ensures
        match r {
            Some(m) => wire_decode(bytes@) == Some(m@),
            None => wire_decode(bytes@) is None,
        },
{
    if bytes.len() == 0 {
        return None;
    }
    let tag = bytes[0];
    if tag == TAG_PLAYER_CONNECTED {
        if bytes.len() == 21 {
            let id = read_u64_le(bytes, 1);
            let position = read_v3_le(bytes, 9);
            Some(ServerMessages::PlayerConnected { id, position })
        } else {
            None
        }
    } else if tag == TAG_PLAYER_DISCONNECTED {
        if bytes.len() == 9 {
            let id = read_u64_le(bytes, 1);
            Some(ServerMessages::PlayerDisconnected { id })
        } else {
            None
        }
    } else if tag == TAG_PLAYER_MOVED {
        if bytes.len() == 21 {
            let id = read_u64_le(bytes, 1);
            let position = read_v3_le(bytes, 9);
            Some(ServerMessages::PlayerMoved { id, position })
        } else {
            None
        }
    } else if tag == TAG_PROJECTILE_SPAWNED {
        if bytes.len() == 33 {
            let id = read_u64_le(bytes, 1);
            let position = read_v3_le(bytes, 9);
            let direction = read_v3_le(bytes, 21);
            Some(ServerMessages::ProjectileSpawned { id, position, direction })
        } else {
            None
        }
    } else if tag == TAG_TEST_MESSAGE {
        if bytes.len() < 9 {
            return None;
        }
        let n = read_u64_le(bytes, 1);
        let payload_len: usize = bytes.len() - 9;
        if n != payload_len as u64 {
            return None;
        }
        let payload = slice_to_vec(slice_subrange(bytes.as_slice(), 9, bytes.len()));
        match string_from_utf8(payload) {
            Some(message) => Some(ServerMessages::TestMessage { message }),
            None => None,
        }
    } else if tag == TAG_PLAYER_DEATH {
        if bytes.len() == 9 {
            let id = read_u64_le(bytes, 1);
            Some(ServerMessages::PlayerDeath { id })
        } else {
            None
        }
    } else {
        None
    }
}

} // verus!
