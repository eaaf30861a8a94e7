//! The wire object encoder.
//!
//! A transformed value is flattened into a record of raw byte fields and
//! written in a fixed schema: every field as an 8-byte little-endian length
//! followed by the bytes, the block list prefixed by its count. The decoder
//! accepts exactly the strings this schema produces, so a round trip
//! reconstructs every structural field. Beside the binary form stands a
//! display form with every field hex-encoded, meant for logs and JSON and
//! not for re-parsing.

use crate::errors::AppError;
use crate::models::{TransformPublicKeyCollection, TransformedBlockResponse, TransformedObject};
use crate::wire::{decode_u64, encode_u64, lemma_u64_le_round_trip, u64_from_le_bytes, u64_le_bytes};
use vstd::prelude::*;

verus! {

/// A public key as its two raw 32-byte coordinates.
#[derive(Debug, PartialEq, Eq, Clone)]
pub struct PublicKeyPair {
    pub x: Vec<u8>,
    pub y: Vec<u8>,
}

/// One transform block as raw bytes: the block public key, the encrypted
/// temp key, the random-transform public key, and its encrypted temp key.
#[derive(Debug, PartialEq, Eq, Clone)]
pub struct TransformBlockRecord {
    pub public_key: PublicKeyPair,
    pub encrypted_temp_key: Vec<u8>,
    pub random_transform_public_key: PublicKeyPair,
    pub encrypted_random_transform_temp_key: Vec<u8>,
}

/// A transformed value flattened to raw bytes, ready for the wire schema.
#[derive(Debug, PartialEq, Eq, Clone)]
pub struct TransformedRecord {
    pub ephemeral_public_key: PublicKeyPair,
    pub encrypted_message: Vec<u8>,
    pub auth_hash: Vec<u8>,
    pub transform_blocks: Vec<TransformBlockRecord>,
    pub public_signing_key: Vec<u8>,
    pub ed25519_signature: Vec<u8>,
}

/// The mathematical shadow of a public key pair.
#[verifier::ext_equal]
pub struct PublicKeyPairV {
    pub x: Seq<u8>,
    pub y: Seq<u8>,
}

/// The mathematical shadow of a transform block.
#[verifier::ext_equal]
pub struct TransformBlockRecordV {
    pub public_key: PublicKeyPairV,
    pub encrypted_temp_key: Seq<u8>,
    pub random_transform_public_key: PublicKeyPairV,
    pub encrypted_random_transform_temp_key: Seq<u8>,
}

/// The mathematical shadow of a transformed record.
#[verifier::ext_equal]
pub struct TransformedRecordV {
    pub ephemeral_public_key: PublicKeyPairV,
    pub encrypted_message: Seq<u8>,
    pub auth_hash: Seq<u8>,
    pub transform_blocks: Seq<TransformBlockRecordV>,
    pub public_signing_key: Seq<u8>,
    pub ed25519_signature: Seq<u8>,
}

impl View for PublicKeyPair {
    type V = PublicKeyPairV;

    open spec fn view(&self) -> PublicKeyPairV {
        PublicKeyPairV { x: self.x@, y: self.y@ }
    }
}

impl View for TransformBlockRecord {
    type V = TransformBlockRecordV;

    open spec fn view(&self) -> TransformBlockRecordV {
        TransformBlockRecordV {
            public_key: self.public_key@,
            encrypted_temp_key: self.encrypted_temp_key@,
            random_transform_public_key: self.random_transform_public_key@,
            encrypted_random_transform_temp_key: self.encrypted_random_transform_temp_key@,
        }
    }
}

impl View for TransformedRecord {
    type V = TransformedRecordV;

    open spec fn view(&self) -> TransformedRecordV {
        TransformedRecordV {
            ephemeral_public_key: self.ephemeral_public_key@,
            encrypted_message: self.encrypted_message@,
            auth_hash: self.auth_hash@,
            transform_blocks: self.transform_blocks@.map_values(|b: TransformBlockRecord| b@),
            public_signing_key: self.public_signing_key@,
            ed25519_signature: self.ed25519_signature@,
        }
    }
}

/// Whether every length in the record fits the 8-byte length prefix.
pub open spec fn bounded_block(b: TransformBlockRecordV) -> bool {
    &&& b.public_key.x.len() <= u64::MAX
    &&& b.public_key.y.len() <= u64::MAX
    &&& b.encrypted_temp_key.len() <= u64::MAX
    &&& b.random_transform_public_key.x.len() <= u64::MAX
    &&& b.random_transform_public_key.y.len() <= u64::MAX
    &&& b.encrypted_random_transform_temp_key.len() <= u64::MAX
}

/// Whether every length in the record fits the 8-byte length prefix.
pub open spec fn bounded_record(r: TransformedRecordV) -> bool {
    &&& r.ephemeral_public_key.x.len() <= u64::MAX
    &&& r.ephemeral_public_key.y.len() <= u64::MAX
    &&& r.encrypted_message.len() <= u64::MAX
    &&& r.auth_hash.len() <= u64::MAX
    &&& r.transform_blocks.len() <= u64::MAX
    &&& (forall|i: int|
        0 <= i < r.transform_blocks.len() ==> bounded_block(#[trigger] r.transform_blocks[i]))
    &&& r.public_signing_key.len() <= u64::MAX
    &&& r.ed25519_signature.len() <= u64::MAX
}

/// One length-delimited field: the byte count, then the bytes.
pub open spec fn enc_field(b: Seq<u8>) -> Seq<u8> {
    u64_le_bytes(b.len() as u64) + b
}

/// A public key pair: its two coordinates as fields.
pub open spec fn enc_pk(p: PublicKeyPairV) -> Seq<u8> {
    enc_field(p.x) + enc_field(p.y)
}

/// One transform block: its four parts in schema order.
pub open spec fn enc_block(b: TransformBlockRecordV) -> Seq<u8> {
    enc_pk(b.public_key) + enc_field(b.encrypted_temp_key) + enc_pk(
        b.random_transform_public_key,
    ) + enc_field(b.encrypted_random_transform_temp_key)
}

/// The block list, in order.
pub open spec fn enc_blocks(bs: Seq<TransformBlockRecordV>) -> Seq<u8>
    decreases bs.len(),
{
    if bs.len() == 0 {
        Seq::empty()
    } else {
        enc_block(bs[0]) + enc_blocks(bs.skip(1))
    }
}

/// The whole record in schema order: ephemeral key, message, auth hash,
/// block count, blocks, signing key, signature.
pub open spec fn enc_record(r: TransformedRecordV) -> Seq<u8> {
    enc_pk(r.ephemeral_public_key) + enc_field(r.encrypted_message) + enc_field(r.auth_hash)
        + u64_le_bytes(r.transform_blocks.len() as u64) + enc_blocks(r.transform_blocks)
        + enc_field(r.public_signing_key) + enc_field(r.ed25519_signature)
}

/// Read one length-delimited field: the bytes and what follows them.
pub open spec fn dec_field(b: Seq<u8>) -> Option<(Seq<u8>, Seq<u8>)> {
    if b.len() >= 8 {
        let n = u64_from_le_bytes(b.take(8)) as int;
        if b.len() - 8 >= n {
            Some((b.skip(8).take(n), b.skip(8 + n)))
        } else {
            None
        }
    } else {
        None
    }
}

/// Read a public key pair.
pub open spec fn dec_pk(b: Seq<u8>) -> Option<(PublicKeyPairV, Seq<u8>)> {
    match dec_field(b) {
        None => None,
        Some((x, rest)) => match dec_field(rest) {
            None => None,
            Some((y, rest)) => Some((PublicKeyPairV { x, y }, rest)),
        },
    }
}

/// Read one transform block.
pub open spec fn dec_block(b: Seq<u8>) -> Option<(TransformBlockRecordV, Seq<u8>)> {
    match dec_pk(b) {
        None => None,
        Some((public_key, rest)) => match dec_field(rest) {
            None => None,
            Some((encrypted_temp_key, rest)) => match dec_pk(rest) {
                None => None,
                Some((random_transform_public_key, rest)) => match dec_field(rest) {
                    None => None,
                    Some((encrypted_random_transform_temp_key, rest)) => Some(
                        (
                            TransformBlockRecordV {
                                public_key,
                                encrypted_temp_key,
                                random_transform_public_key,
                                encrypted_random_transform_temp_key,
                            },
                            rest,
                        ),
                    ),
                },
            },
        },
    }
}

/// Read `n` transform blocks.
pub open spec fn dec_blocks(n: nat, b: Seq<u8>) -> Option<(Seq<TransformBlockRecordV>, Seq<u8>)>
    decreases n,
{
    if n == 0 {
        Some((Seq::empty(), b))
    } else {
        match dec_block(b) {
            None => None,
            Some((blk, rest)) => match dec_blocks((n - 1) as nat, rest) {
                None => None,
                Some((blks, rest)) => Some((seq![blk] + blks, rest)),
            },
        }
    }
}

/// Read a whole record; the input must be consumed exactly.
pub open spec fn dec_record(b: Seq<u8>) -> Option<TransformedRecordV> {
    match dec_pk(b) {
        None => None,
        Some((ephemeral_public_key, rest)) => match dec_field(rest) {
            None => None,
            Some((encrypted_message, rest)) => match dec_field(rest) {
                None => None,
                Some((auth_hash, rest)) => if rest.len() >= 8 {
                    let n = u64_from_le_bytes(rest.take(8)) as nat;
                    match dec_blocks(n, rest.skip(8)) {
                        None => None,
                        Some((transform_blocks, rest)) => match dec_field(rest) {
                            None => None,
                            Some((public_signing_key, rest)) => match dec_field(rest) {
                                None => None,
                                Some((ed25519_signature, rest)) => if rest.len() == 0 {
                                    Some(
                                        TransformedRecordV {
                                            ephemeral_public_key,
                                            encrypted_message,
                                            auth_hash,
                                            transform_blocks,
                                            public_signing_key,
                                            ed25519_signature,
                                        },
                                    )
                                } else {
                                    None
                                },
                            },
                        },
                    }
                } else {
                    None
                },
            },
        },
    }
}

/// Reading a field back out of its encoding returns the field and leaves
/// exactly what followed it.
proof fn lemma_dec_field(f: Seq<u8>, rest: Seq<u8>)
    requires
        f.len() <= u64::MAX,
    ensures
        dec_field(enc_field(f) + rest) == Some((f, rest)),
{
    let b = enc_field(f) + rest;
    lemma_u64_le_round_trip(f.len() as u64);
    assert(b.take(8) =~= u64_le_bytes(f.len() as u64));
    let n = u64_from_le_bytes(b.take(8)) as int;
    assert(n == f.len());
    assert(b.skip(8).take(n) =~= f);
    assert(b.skip(8 + n) =~= rest);
    assert(dec_field(b) =~~= Some((f, rest)));
}

/// Reading a public key pair back out of its encoding.
proof fn lemma_dec_pk(p: PublicKeyPairV, rest: Seq<u8>)
    requires
        p.x.len() <= u64::MAX,
        p.y.len() <= u64::MAX,
    ensures
        dec_pk(enc_pk(p) + rest) == Some((p, rest)),
{
    assert(enc_pk(p) + rest =~= enc_field(p.x) + (enc_field(p.y) + rest));
    lemma_dec_field(p.x, enc_field(p.y) + rest);
    lemma_dec_field(p.y, rest);
    assert(dec_pk(enc_pk(p) + rest) =~~= Some((p, rest)));
}

/// Reading one transform block back out of its encoding.
proof fn lemma_dec_block(blk: TransformBlockRecordV, rest: Seq<u8>)
    requires
        bounded_block(blk),
    ensures
        dec_block(enc_block(blk) + rest) == Some((blk, rest)),
{
    let r3 = enc_field(blk.encrypted_random_transform_temp_key) + rest;
    let r2 = enc_pk(blk.random_transform_public_key) + r3;
    let r1 = enc_field(blk.encrypted_temp_key) + r2;
    assert(enc_block(blk) + rest =~= enc_pk(blk.public_key) + r1);
    lemma_dec_pk(blk.public_key, r1);
    lemma_dec_field(blk.encrypted_temp_key, r2);
    lemma_dec_pk(blk.random_transform_public_key, r3);
    lemma_dec_field(blk.encrypted_random_transform_temp_key, rest);
    assert(dec_block(enc_block(blk) + rest) =~~= Some((blk, rest)));
}

/// Reading a block list back out of its encoding.
#[verifier::rlimit(100)]
#[verifier::spinoff_prover]
proof fn lemma_dec_blocks(bs: Seq<TransformBlockRecordV>, rest: Seq<u8>)
    requires
        forall|i: int| 0 <= i < bs.len() ==> bounded_block(#[trigger] bs[i]),
    ensures
        dec_blocks(bs.len(), enc_blocks(bs) + rest) == Some((bs, rest)),
    decreases bs.len(),
{
    if bs.len() == 0 {
        assert(enc_blocks(bs) + rest =~= rest);
        assert(dec_blocks(bs.len(), enc_blocks(bs) + rest) =~~= Some((bs, rest)));
    } else {
        let tail = bs.skip(1);
        assert(enc_blocks(bs) + rest =~= enc_block(bs[0]) + (enc_blocks(tail) + rest));
        lemma_dec_block(bs[0], enc_blocks(tail) + rest);
        assert(forall|i: int| 0 <= i < tail.len() ==> bounded_block(#[trigger] tail[i]));
        lemma_dec_blocks(tail, rest);
        assert(seq![bs[0]] + tail =~= bs);
        assert(dec_blocks(bs.len(), enc_blocks(bs) + rest) =~~= Some((bs, rest)));
    }
}

/// Decoding the encoding of any record returns exactly that record:
/// the binary wire schema round-trips field by field.
#[verifier::rlimit(100)]
#[verifier::spinoff_prover]
pub proof fn lemma_record_round_trip(r: TransformedRecordV)
    requires
        bounded_record(r),
    ensures
        dec_record(enc_record(r)) == Some(r),
{
    let count = u64_le_bytes(r.transform_blocks.len() as u64);
    let r5 = enc_field(r.ed25519_signature);
    let r4 = enc_field(r.public_signing_key) + r5;
    let r3 = count + enc_blocks(r.transform_blocks) + r4;
    let r2 = enc_field(r.auth_hash) + r3;
    let r1 = enc_field(r.encrypted_message) + r2;
    assert(enc_record(r) =~= enc_pk(r.ephemeral_public_key) + r1);
    lemma_dec_pk(r.ephemeral_public_key, r1);
    lemma_dec_field(r.encrypted_message, r2);
    lemma_dec_field(r.auth_hash, r3);
    assert(r3.take(8) =~= count);
    lemma_u64_le_round_trip(r.transform_blocks.len() as u64);
    assert(r3.skip(8) =~= enc_blocks(r.transform_blocks) + r4);
    lemma_dec_blocks(r.transform_blocks, r4);
    lemma_dec_field(r.public_signing_key, r5);
    lemma_dec_field(r.ed25519_signature, Seq::empty());
    assert(r5 =~= enc_field(r.ed25519_signature) + Seq::<u8>::empty());
    assert(dec_record(enc_record(r)) =~~= Some(r));
}

/// Encoding one more block appends that block's encoding.
proof fn lemma_enc_blocks_snoc(bs: Seq<TransformBlockRecordV>, i: int)
    requires
        0 <= i < bs.len(),
    ensures
        enc_blocks(bs.take(i + 1)) == enc_blocks(bs.take(i)) + enc_block(bs[i]),
    decreases i,
{
    if i == 0 {
        assert(bs.take(1).skip(1) =~= Seq::<TransformBlockRecordV>::empty());
        assert(bs.take(0) =~= Seq::<TransformBlockRecordV>::empty());
        assert(bs.take(1)[0] == bs[0]);
        assert(enc_blocks(bs.take(1)) =~= enc_blocks(bs.take(0)) + enc_block(bs[0]));
    } else {
        let t = bs.skip(1);
        lemma_enc_blocks_snoc(t, i - 1);
        assert(bs.take(i + 1).skip(1) =~= t.take(i));
        assert(bs.take(i).skip(1) =~= t.take(i - 1));
        assert(bs.take(i + 1)[0] == bs[0]);
        assert(bs.take(i)[0] == bs[0]);
        assert(t[i - 1] == bs[i]);
        assert(enc_blocks(bs.take(i + 1)) =~= enc_blocks(bs.take(i)) + enc_block(bs[i]));
    }
}

/// Append the raw bytes of a field.
fn push_bytes(out: &mut Vec<u8>, f: &Vec<u8>)
    ensures
        final(out)@ == old(out)@ + f@,
{
    let mut i: usize = 0;
    while i < f.len()
        invariant
            0 <= i <= f@.len(),
            out@ == old(out)@ + f@.take(i as int),
        decreases f@.len() - i,
    {
        out.push(f[i]);
        i += 1;
        proof {
            assert(out@ =~= old(out)@ + f@.take(i as int));
        }
    }
    proof {
        assert(old(out)@ + f@.take(f@.len() as int) =~= old(out)@ + f@);
    }
}

/// Append one length-delimited field.
fn push_field(out: &mut Vec<u8>, f: &Vec<u8>)
    ensures
        final(out)@ == old(out)@ + enc_field(f@),
{
    let len_bytes = encode_u64(f.len() as u64);
    push_bytes(out, &len_bytes);
    push_bytes(out, f);
    proof {
        assert(out@ =~= old(out)@ + enc_field(f@));
    }
}

/// Append a public key pair.
fn push_pk(out: &mut Vec<u8>, p: &PublicKeyPair)
    ensures
        final(out)@ == old(out)@ + enc_pk(p@),
{
    push_field(out, &p.x);
    push_field(out, &p.y);
    proof {
        assert(out@ =~= old(out)@ + enc_pk(p@));
    }
}

/// Append one transform block.
fn push_block(out: &mut Vec<u8>, b: &TransformBlockRecord)
    ensures
        final(out)@ == old(out)@ + enc_block(b@),
{
    push_pk(out, &b.public_key);
    push_field(out, &b.encrypted_temp_key);
    push_pk(out, &b.random_transform_public_key);
    push_field(out, &b.encrypted_random_transform_temp_key);
    proof {
        assert(out@ =~= old(out)@ + enc_block(b@));
    }
}

/// Encode a transformed record into its binary wire form.
pub fn encode_binary(x: &TransformedRecord) -> (out: Vec<u8>)
    ensures
        out@ == enc_record(x@),
{
    let ghost bv = x@.transform_blocks;
    let mut out: Vec<u8> = Vec::new();
    push_pk(&mut out, &x.ephemeral_public_key);
    push_field(&mut out, &x.encrypted_message);
    push_field(&mut out, &x.auth_hash);
    let count_bytes = encode_u64(x.transform_blocks.len() as u64);
    push_bytes(&mut out, &count_bytes);
    let ghost head = out@;
    let mut i: usize = 0;
    while i < x.transform_blocks.len()
        invariant
            0 <= i <= x.transform_blocks@.len(),
            bv == x@.transform_blocks,
            bv.len() == x.transform_blocks@.len(),
            forall|k: int| 0 <= k < bv.len() ==> bv[k] == x.transform_blocks@[k]@,
            out@ == head + enc_blocks(bv.take(i as int)),
        decreases x.transform_blocks@.len() - i,
    {
        push_block(&mut out, &x.transform_blocks[i]);
        proof {
            lemma_enc_blocks_snoc(bv, i as int);
            assert(out@ =~= head + enc_blocks(bv.take(i + 1)));
        }
        i += 1;
    }
    proof {
        assert(bv.take(bv.len() as int) =~= bv);
    }
    push_field(&mut out, &x.public_signing_key);
    push_field(&mut out, &x.ed25519_signature);
    proof {
        assert(out@ =~= enc_record(x@));
    }
    out
}

/// Read one length-delimited field at an offset.
fn read_field(data: &Vec<u8>, pos: usize) -> (r: Option<(Vec<u8>, usize)>)
    requires
        pos <= data@.len(),
    ensures
        match dec_field(data@.skip(pos as int)) {
            Some((f, tail)) => r matches Some((field, newpos)) && field@ == f && pos <= newpos
                <= data@.len() && data@.skip(newpos as int) == tail,
            None => r is None,
        },
{
    let ghost s = data@.skip(pos as int);
    let rem = data.len() - pos;
    if rem < 8 {
        return None;
    }
    let mut len_bytes: Vec<u8> = Vec::new();
    let mut k: usize = 0;
    while k < 8
        invariant
            0 <= k <= 8,
            pos + 8 <= data@.len(),
            data@.len() <= usize::MAX,
            len_bytes@ == data@.subrange(pos as int, pos + k as int),
        decreases 8 - k,
    {
        len_bytes.push(data[pos + k]);
        k += 1;
        proof {
            assert(len_bytes@ =~= data@.subrange(pos as int, pos + k as int));
        }
    }
    proof {
        assert(len_bytes@ =~= s.take(8));
    }
    let n = decode_u64(&len_bytes);
    if n > (rem - 8) as u64 {
        return None;
    }
    let nn = n as usize;
    let start = pos + 8;
    let mut field: Vec<u8> = Vec::new();
    let mut j: usize = 0;
    while j < nn
        invariant
            0 <= j <= nn,
            start + nn <= data@.len(),
            data@.len() <= usize::MAX,
            field@ == data@.subrange(start as int, start + j as int),
        decreases nn - j,
    {
        field.push(data[start + j]);
        j += 1;
        proof {
            assert(field@ =~= data@.subrange(start as int, start + j as int));
        }
    }
    let newpos = start + nn;
    proof {
        assert(field@ =~= s.skip(8).take(n as int));
        assert(data@.skip(newpos as int) =~= s.skip(8 + n as int));
    }
    Some((field, newpos))
}

/// Read a public key pair at an offset.
fn read_pk(data: &Vec<u8>, pos: usize) -> (r: Option<(PublicKeyPair, usize)>)
    requires
        pos <= data@.len(),
    ensures
        match dec_pk(data@.skip(pos as int)) {
            Some((p, tail)) => r matches Some((pk, newpos)) && pk@ == p && pos <= newpos
                <= data@.len() && data@.skip(newpos as int) == tail,
            None => r is None,
        },
{
    let (x, pos) = match read_field(data, pos) {
        Some(v) => v,
        None => {
            return None;
        },
    };
    let (y, pos) = match read_field(data, pos) {
        Some(v) => v,
        None => {
            return None;
        },
    };
    Some((PublicKeyPair { x, y }, pos))
}

/// Read one transform block at an offset.
fn read_block(data: &Vec<u8>, pos: usize) -> (r: Option<(TransformBlockRecord, usize)>)
    requires
        pos <= data@.len(),
    ensures
        match dec_block(data@.skip(pos as int)) {
            Some((b, tail)) => r matches Some((blk, newpos)) && blk@ == b && pos <= newpos
                <= data@.len() && data@.skip(newpos as int) == tail,
            None => r is None,
        },
{
    let (public_key, pos) = match read_pk(data, pos) {
        Some(v) => v,
        None => {
            return None;
        },
    };
    let (encrypted_temp_key, pos) = match read_field(data, pos) {
        Some(v) => v,
        None => {
            return None;
        },
    };
    let (random_transform_public_key, pos) = match read_pk(data, pos) {
        Some(v) => v,
        None => {
            return None;
        },
    };
    let (encrypted_random_transform_temp_key, pos) = match read_field(data, pos) {
        Some(v) => v,
        None => {
            return None;
        },
    };
    Some(
        (
            TransformBlockRecord {
                public_key,
                encrypted_temp_key,
                random_transform_public_key,
                encrypted_random_transform_temp_key,
            },
            pos,
        ),
    )
}

/// Decode a binary wire form back into a transformed record. Succeeds on
/// exactly the strings the schema produces, consuming the input whole.
#[verifier::rlimit(100)]
#[verifier::spinoff_prover]
pub fn decode_binary(data: &Vec<u8>) -> (r: Result<TransformedRecord, AppError>)
    ensures
        r is Ok <==> dec_record(data@) is Some,
        r is Ok ==> dec_record(data@) == Some(r->Ok_0@),
        r is Err ==> r->Err_0 is Encoding,
{
    let (ephemeral_public_key, pos) = match read_pk(data, 0) {
        Some(v) => v,
        None => {
            return Err(AppError::Encoding(String::from_str("bad wire object")));
        },
    };
    proof {
        assert(data@.skip(0) =~= data@);
    }
    let (encrypted_message, pos) = match read_field(data, pos) {
        Some(v) => v,
        None => {
            return Err(AppError::Encoding(String::from_str("bad wire object")));
        },
    };
    let (auth_hash, pos) = match read_field(data, pos) {
        Some(v) => v,
        None => {
            return Err(AppError::Encoding(String::from_str("bad wire object")));
        },
    };
    let ghost s_count = data@.skip(pos as int);
    let rem = data.len() - pos;
    if rem < 8 {
        return Err(AppError::Encoding(String::from_str("bad wire object")));
    }
    let mut count_bytes: Vec<u8> = Vec::new();
    let mut k: usize = 0;
    while k < 8
        invariant
            0 <= k <= 8,
            pos + 8 <= data@.len(),
            data@.len() <= usize::MAX,
            count_bytes@ == data@.subrange(pos as int, pos + k as int),
        decreases 8 - k,
    {
        count_bytes.push(data[pos + k]);
        k += 1;
        proof {
            assert(count_bytes@ =~= data@.subrange(pos as int, pos + k as int));
        }
    }
    proof {
        assert(count_bytes@ =~= s_count.take(8));
    }
    let total = decode_u64(&count_bytes);
    let blocks_start = pos + 8;
    proof {
        assert(data@.skip(blocks_start as int) =~= s_count.skip(8));
    }
    let ghost s_blocks = data@.skip(blocks_start as int);
    let mut blocks: Vec<TransformBlockRecord> = Vec::new();
    let mut done: u64 = 0;
    let mut pos = blocks_start;
    proof {
        assert(blocks@.map_values(|b: TransformBlockRecord| b@) =~= Seq::<
            TransformBlockRecordV,
        >::empty());
        match dec_blocks(total as nat, s_blocks) {
            Some((rest, tail)) => {
                assert(Seq::<TransformBlockRecordV>::empty() + rest =~= rest);
            },
            None => {},
        }
    }
    while done < total
        invariant
            0 <= done <= total,
            pos <= data@.len(),
            s_blocks == data@.skip(blocks_start as int),
            dec_blocks(total as nat, s_blocks) is None ==> dec_record(data@) is None,
            blocks@.map_values(|b: TransformBlockRecord| b@).len() == done,
            match dec_blocks((total - done) as nat, data@.skip(pos as int)) {
                Some((rest, tail)) => dec_blocks(total as nat, s_blocks) == Some(
                    (blocks@.map_values(|b: TransformBlockRecord| b@) + rest, tail),
                ),
                None => dec_blocks(total as nat, s_blocks) is None,
            },
        decreases total - done,
    {
        let ghost acc = blocks@.map_values(|b: TransformBlockRecord| b@);
        let (blk, newpos) = match read_block(data, pos) {
            Some(v) => v,
            None => {
                proof {
                    assert(dec_blocks((total - done) as nat, data@.skip(pos as int)) is None);
                }
                return Err(AppError::Encoding(String::from_str("bad wire object")));
            },
        };
        proof {
            let sp = data@.skip(pos as int);
            assert(dec_block(sp) == Some((blk@, data@.skip(newpos as int))));
            assert(blocks@.push(blk).map_values(|b: TransformBlockRecord| b@) =~= acc + seq![
                blk@,
            ]);
            match dec_blocks((total - done - 1) as nat, data@.skip(newpos as int)) {
                Some((rest, tail)) => {
                    assert(dec_blocks((total - done) as nat, sp) == Some(
                        (seq![blk@] + rest, tail),
                    ));
                    assert(acc + (seq![blk@] + rest) =~= (acc + seq![blk@]) + rest);
                },
                None => {
                    assert(dec_blocks((total - done) as nat, sp) is None);
                },
            }
        }
        blocks.push(blk);
        pos = newpos;
        done = done + 1;
    }
    proof {
        let acc = blocks@.map_values(|b: TransformBlockRecord| b@);
        assert(dec_blocks(0, data@.skip(pos as int)) == Some(
            (Seq::<TransformBlockRecordV>::empty(), data@.skip(pos as int)),
        ));
        assert(acc + Seq::<TransformBlockRecordV>::empty() =~= acc);
    }
    let (public_signing_key, pos) = match read_field(data, pos) {
        Some(v) => v,
        None => {
            return Err(AppError::Encoding(String::from_str("bad wire object")));
        },
    };
    let (ed25519_signature, pos) = match read_field(data, pos) {
        Some(v) => v,
        None => {
            return Err(AppError::Encoding(String::from_str("bad wire object")));
        },
    };
    if pos != data.len() {
        return Err(AppError::Encoding(String::from_str("bad wire object")));
    }
    proof {
        assert(data@.skip(pos as int) =~= Seq::<u8>::empty());
    }
    let record = TransformedRecord {
        ephemeral_public_key,
        encrypted_message,
        auth_hash,
        transform_blocks: blocks,
        public_signing_key,
        ed25519_signature,
    };
    proof {
        assert(dec_record(data@) =~~= Some(record@));
    }
    Ok(record)
}

/// The lowercase hex digit of a nibble.
pub open spec fn hex_digit(n: u8) -> char
    recommends
        n < 16,
{
    if n < 10 {
        (48 + n) as char
    } else {
        (87 + n) as char
    }
}

/// The lowercase hex rendering of a byte string: two digits per byte, most
/// significant nibble first.
pub open spec fn hex_of(b: Seq<u8>) -> Seq<char>
    decreases b.len(),
{
    if b.len() == 0 {
        Seq::empty()
    } else {
        hex_of(b.drop_last()) + seq![hex_digit(b.last() / 16), hex_digit(b.last() % 16)]
    }
}

/// Relies on hex::encode: each byte becomes two lowercase hex digits, most
/// significant nibble first, in byte order.
#[verifier::external_body]
pub(crate) fn hex_encode(b: &Vec<u8>) -> (r: String)
    ensures
        r@ == hex_of(b@),
{
    hex::encode(b)
}

/// Render a public key pair as two hex strings.
fn display_pk(p: &PublicKeyPair) -> (r: TransformPublicKeyCollection)
    ensures
        r.public_key_x@ == hex_of(p@.x),
        r.public_key_y@ == hex_of(p@.y),
{
    TransformPublicKeyCollection {
        public_key_x: hex_encode(&p.x),
        public_key_y: hex_encode(&p.y),
    }
}

/// Whether a display object is the hex rendering of a record: every byte
/// field hex-encoded, with the first transform block spelled out.
pub open spec fn is_display_of(d: TransformedObject, x: TransformedRecordV) -> bool {
    &&& d.ephemeral_public_key.public_key_x@ == hex_of(x.ephemeral_public_key.x)
    &&& d.ephemeral_public_key.public_key_y@ == hex_of(x.ephemeral_public_key.y)
    &&& d.encrypted_message@ == hex_of(x.encrypted_message)
    &&& d.auth_hash@ == hex_of(x.auth_hash)
    &&& d.transform_blocks.public_key.public_key_x@ == hex_of(x.transform_blocks[0].public_key.x)
    &&& d.transform_blocks.public_key.public_key_y@ == hex_of(x.transform_blocks[0].public_key.y)
    &&& d.transform_blocks.encrypted_temp_key@ == hex_of(x.transform_blocks[0].encrypted_temp_key)
    &&& d.transform_blocks.encrypted_random_transform_temp_key@ == hex_of(
        x.transform_blocks[0].encrypted_random_transform_temp_key,
    )
    &&& d.transform_blocks.random_transform_public_key.public_key_x@ == hex_of(
        x.transform_blocks[0].random_transform_public_key.x,
    )
    &&& d.transform_blocks.random_transform_public_key.public_key_y@ == hex_of(
        x.transform_blocks[0].random_transform_public_key.y,
    )
    &&& d.public_signing_key@ == hex_of(x.public_signing_key)
    &&& d.ed25519_signature@ == hex_of(x.ed25519_signature)
}

/// Render a transformed record for display: every byte field hex-encoded,
/// with the first transform block spelled out. Display form only; the
/// binary form is what round-trips.
pub fn encode_display(x: &TransformedRecord) -> (r: TransformedObject)
    requires
        x@.transform_blocks.len() >= 1,
    ensures
        is_display_of(r, x@),
{
    let first = &x.transform_blocks[0];
    TransformedObject {
        ephemeral_public_key: display_pk(&x.ephemeral_public_key),
        encrypted_message: hex_encode(&x.encrypted_message),
        auth_hash: hex_encode(&x.auth_hash),
        transform_blocks: TransformedBlockResponse {
            public_key: display_pk(&first.public_key),
            encrypted_temp_key: hex_encode(&first.encrypted_temp_key),
            encrypted_random_transform_temp_key: hex_encode(
                &first.encrypted_random_transform_temp_key,
            ),
            random_transform_public_key: display_pk(&first.random_transform_public_key),
        },
        public_signing_key: hex_encode(&x.public_signing_key),
        ed25519_signature: hex_encode(&x.ed25519_signature),
    }
}

} // verus!
