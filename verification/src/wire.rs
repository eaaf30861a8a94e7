//! Fixed 8-byte little-endian length framing.
//!
//! Every message on the channel is one frame: an 8-byte unsigned length
//! prefix in little-endian order, followed by exactly that many payload
//! bytes. The codec here is the single place where that prefix is read and
//! written.

use vstd::prelude::*;

verus! {

/// The width of the length prefix, in bytes.
pub const LENGTH_PREFIX_BYTES: usize = 8;

/// The little-endian bytes of a 64-bit value, least significant first.
pub open spec fn u64_le_bytes(v: u64) -> Seq<u8> {
    seq![
        (v & 0xff) as u8,
        ((v >> 8) & 0xff) as u8,
        ((v >> 16) & 0xff) as u8,
        ((v >> 24) & 0xff) as u8,
        ((v >> 32) & 0xff) as u8,
        ((v >> 40) & 0xff) as u8,
        ((v >> 48) & 0xff) as u8,
        ((v >> 56) & 0xff) as u8,
    ]
}

/// The 64-bit value read from 8 bytes in little-endian order.
pub open spec fn u64_from_le_bytes(s: Seq<u8>) -> u64
    recommends
        s.len() == 8,
{
    (s[0] as u64) | ((s[1] as u64) << 8) | ((s[2] as u64) << 16) | ((s[3] as u64) << 24)
        | ((s[4] as u64) << 32) | ((s[5] as u64) << 40) | ((s[6] as u64) << 48) | ((
    s[7] as u64) << 56)
}

/// A frame: the little-endian length prefix followed by the payload.
pub open spec fn frame_bytes(payload: Seq<u8>) -> Seq<u8>
    recommends
        payload.len() <= u64::MAX,
{
    u64_le_bytes(payload.len() as u64) + payload
}

/// Encode a 64-bit value as its 8 little-endian bytes.
pub fn encode_u64(v: u64) -> (r: Vec<u8>)
    ensures
        r@ == u64_le_bytes(v),
        r@.len() == 8,
{
    proof {
        lemma_le_bytes_fit(v);
    }
    let mut r: Vec<u8> = Vec::new();
    r.push((v & 0xff) as u8);
    r.push(((v >> 8) & 0xff) as u8);
    r.push(((v >> 16) & 0xff) as u8);
    r.push(((v >> 24) & 0xff) as u8);
    r.push(((v >> 32) & 0xff) as u8);
    r.push(((v >> 40) & 0xff) as u8);
    r.push(((v >> 48) & 0xff) as u8);
    r.push(((v >> 56) & 0xff) as u8);
    proof {
        assert(r@ =~= u64_le_bytes(v));
    }
    r
}

/// Decode 8 little-endian bytes into the 64-bit value they spell.
pub fn decode_u64(b: &Vec<u8>) -> (r: u64)
    requires
        b@.len() == 8,
    ensures
        r == u64_from_le_bytes(b@),
{
    (b[0] as u64) | ((b[1] as u64) << 8) | ((b[2] as u64) << 16) | ((b[3] as u64) << 24) | ((
    b[4] as u64) << 32) | ((b[5] as u64) << 40) | ((b[6] as u64) << 48) | ((b[7] as u64) << 56)
}

/// Build one frame around a payload: 8-byte little-endian length, then the
/// payload bytes.
pub fn build_frame(payload: &Vec<u8>) -> (r: Vec<u8>)
    ensures
        r@ == frame_bytes(payload@),
        r@.len() == payload@.len() + 8,
{
    let len_bytes = encode_u64(payload.len() as u64);
    let mut r = len_bytes;
    let mut i: usize = 0;
    while i < payload.len()
        invariant
            0 <= i <= payload@.len(),
            r@ == u64_le_bytes(payload@.len() as u64) + payload@.take(i as int),
        decreases payload@.len() - i,
    {
        r.push(payload[i]);
        i += 1;
        proof {
            assert(r@ =~= u64_le_bytes(payload@.len() as u64) + payload@.take(i as int));
        }
    }
    proof {
        assert(payload@.take(payload@.len() as int) =~= payload@);
    }
    r
}

/// Each little-endian byte of a 64-bit value is below 256.
proof fn lemma_le_bytes_fit(v: u64)
    by (bit_vector)
    ensures
        (v & 0xff) < 256,
        ((v >> 8) & 0xff) < 256,
        ((v >> 16) & 0xff) < 256,
        ((v >> 24) & 0xff) < 256,
        ((v >> 32) & 0xff) < 256,
        ((v >> 40) & 0xff) < 256,
        ((v >> 48) & 0xff) < 256,
        ((v >> 56) & 0xff) < 256,
{
}

/// Reading back the 8 little-endian bytes of a value returns that value:
/// the framing prefix round-trips for every 64-bit length.
pub proof fn lemma_u64_le_round_trip(v: u64)
    ensures
        u64_from_le_bytes(u64_le_bytes(v)) == v,
{
    let b0 = (v & 0xff) as u8;
    let b1 = ((v >> 8) & 0xff) as u8;
    let b2 = ((v >> 16) & 0xff) as u8;
    let b3 = ((v >> 24) & 0xff) as u8;
    let b4 = ((v >> 32) & 0xff) as u8;
    let b5 = ((v >> 40) & 0xff) as u8;
    let b6 = ((v >> 48) & 0xff) as u8;
    let b7 = ((v >> 56) & 0xff) as u8;
    assert((b0 as u64) | ((b1 as u64) << 8) | ((b2 as u64) << 16) | ((b3 as u64) << 24) | ((
    b4 as u64) << 32) | ((b5 as u64) << 40) | ((b6 as u64) << 48) | ((b7 as u64) << 56) == v)
        by (bit_vector)
        requires
            b0 == (v & 0xff) as u8,
            b1 == ((v >> 8) & 0xff) as u8,
            b2 == ((v >> 16) & 0xff) as u8,
            b3 == ((v >> 24) & 0xff) as u8,
            b4 == ((v >> 32) & 0xff) as u8,
            b5 == ((v >> 40) & 0xff) as u8,
            b6 == ((v >> 48) & 0xff) as u8,
            b7 == ((v >> 56) & 0xff) as u8,
    ;
}

/// The length prefix of a frame spells the payload length.
pub proof fn lemma_frame_length(payload: Seq<u8>)
    requires
        payload.len() <= u64::MAX,
    ensures
        u64_from_le_bytes(frame_bytes(payload).take(8)) == payload.len(),
        frame_bytes(payload).skip(8) =~= payload,
{
    lemma_u64_le_round_trip(payload.len() as u64);
    assert(frame_bytes(payload).take(8) =~= u64_le_bytes(payload.len() as u64));
}

} // verus!
