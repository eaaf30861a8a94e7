//! The re-encryption pipeline.
//!
//! A linear sequence of cryptographic steps: encrypt a plaintext under the
//! owner key, derive a transform key toward the delegatee, transform the
//! encrypted value once, and flatten the result into a byte record for the
//! encoder. The elliptic-curve operations themselves are the recrypt
//! crate's, reached through the trusted items below; everything around them
//! — input validation, the single-hop policy, error mapping, and the
//! flattening into records — is verified. The pipeline does no I/O.

use crate::encoder::{
    enc_record, hex_encode, hex_of, is_display_of, encode_binary, encode_display, PublicKeyPair,
    TransformBlockRecord, TransformedRecord, TransformedRecordV, TransformBlockRecordV,
};
use crate::errors::AppError;
use crate::models::{EncryptedResponse, Keys, Payload, TransformedObjectResponse};
use recrypt::api::{CryptoOps, Ed25519Ops, KeyGenOps};
use vstd::prelude::*;

verus! {

#[verifier::external_type_specification]
#[verifier::external_body]
pub struct ExPlaintext(recrypt::api::Plaintext);

#[verifier::external_type_specification]
#[verifier::external_body]
pub struct ExPrivateKey(recrypt::api::PrivateKey);

#[verifier::external_type_specification]
#[verifier::external_body]
pub struct ExPublicKey(recrypt::api::PublicKey);

#[verifier::external_type_specification]
#[verifier::external_body]
pub struct ExSigningKeypair(recrypt::api::SigningKeypair);

#[verifier::external_type_specification]
#[verifier::external_body]
pub struct ExEncryptedValue(recrypt::api::EncryptedValue);

#[verifier::external_type_specification]
#[verifier::external_body]
pub struct ExTransformKey(recrypt::api::TransformKey);

#[verifier::external_type_specification]
#[verifier::external_body]
pub struct ExTransformBlock(recrypt::api::TransformBlock);

#[verifier::external_type_specification]
#[verifier::external_body]
pub struct ExRecryptErr(recrypt::api::RecryptErr);

/// Relies on recrypt's gen_plaintext: a fresh random plaintext element.
#[verifier::external_body]
fn gen_plaintext() -> recrypt::api::Plaintext {
    recrypt::api::Recrypt::new().gen_plaintext()
}

/// Relies on recrypt's Plaintext::bytes: the 384-byte encoding.
#[verifier::external_body]
fn plaintext_bytes(p: &recrypt::api::Plaintext) -> (r: Vec<u8>)
    ensures
        r@.len() == 384,
{
    p.bytes().to_vec()
}

/// Relies on recrypt's Plaintext::new_from_slice, which accepts exactly
/// 384-byte slices.
#[verifier::external_body]
fn plaintext_from_bytes(b: &Vec<u8>) -> (r: Result<
    recrypt::api::Plaintext,
    recrypt::api::RecryptErr,
>)
    ensures
        r is Ok <==> b@.len() == 384,
{
    recrypt::api::Plaintext::new_from_slice(b.as_slice())
}

/// Relies on recrypt's PrivateKey::new_from_slice, which accepts exactly
/// 32-byte slices.
#[verifier::external_body]
fn private_key_from_bytes(b: &Vec<u8>) -> (r: Result<
    recrypt::api::PrivateKey,
    recrypt::api::RecryptErr,
>)
    ensures
        r is Ok <==> b@.len() == 32,
{
    recrypt::api::PrivateKey::new_from_slice(b.as_slice())
}

/// Relies on recrypt's PublicKey::new_from_slice: both coordinates must be
/// 32 bytes, and the point must lie on the curve.
#[verifier::external_body]
fn public_key_from_bytes(x: &Vec<u8>, y: &Vec<u8>) -> (r: Result<
    recrypt::api::PublicKey,
    recrypt::api::RecryptErr,
>)
    ensures
        r is Ok ==> x@.len() == 32 && y@.len() == 32,
        x@.len() != 32 || y@.len() != 32 ==> r is Err,
{
    recrypt::api::PublicKey::new_from_slice((x.as_slice(), y.as_slice()))
}

/// Relies on recrypt's PublicKey::bytes_x_y: the two 32-byte coordinates.
#[verifier::external_body]
fn public_key_coords(p: &recrypt::api::PublicKey) -> (r: (Vec<u8>, Vec<u8>))
    ensures
        r.0@.len() == 32,
        r.1@.len() == 32,
{
    let (x, y) = p.bytes_x_y();
    (x.to_vec(), y.to_vec())
}

/// Relies on recrypt's PrivateKey::bytes: the 32-byte encoding.
#[verifier::external_body]
fn private_key_bytes(k: &recrypt::api::PrivateKey) -> (r: Vec<u8>)
    ensures
        r@.len() == 32,
{
    k.bytes().to_vec()
}

/// Relies on recrypt's generate_ed25519_key_pair: a fresh random signing
/// keypair.
#[verifier::external_body]
fn generate_signing_keypair() -> recrypt::api::SigningKeypair {
    recrypt::api::Recrypt::new().generate_ed25519_key_pair()
}

/// Relies on recrypt's generate_key_pair: a fresh random keypair, or an
/// error from the underlying curve operations.
#[verifier::external_body]
fn recrypt_generate_key_pair() -> Result<
    (recrypt::api::PrivateKey, recrypt::api::PublicKey),
    recrypt::api::RecryptErr,
> {
    recrypt::api::Recrypt::new().generate_key_pair()
}

/// Relies on recrypt's encrypt: authenticated encryption of the plaintext
/// to the public key, signed by the keypair. The result is randomized.
#[verifier::external_body]
fn recrypt_encrypt(
    p: &recrypt::api::Plaintext,
    to: &recrypt::api::PublicKey,
    signer: &recrypt::api::SigningKeypair,
) -> Result<recrypt::api::EncryptedValue, recrypt::api::RecryptErr> {
    recrypt::api::Recrypt::new().encrypt(p, to, signer)
}

/// Relies on recrypt's generate_transform_key from the owner private key
/// toward the delegatee public key. The result is randomized.
#[verifier::external_body]
fn recrypt_generate_transform_key(
    from: &recrypt::api::PrivateKey,
    to: &recrypt::api::PublicKey,
    signer: &recrypt::api::SigningKeypair,
) -> Result<recrypt::api::TransformKey, recrypt::api::RecryptErr> {
    recrypt::api::Recrypt::new().generate_transform_key(from, to, signer)
}

/// Relies on recrypt's transform: re-encrypt the value toward the
/// delegatee of the transform key, without decrypting it.
#[verifier::external_body]
fn recrypt_transform(
    v: &recrypt::api::EncryptedValue,
    k: &recrypt::api::TransformKey,
    signer: &recrypt::api::SigningKeypair,
) -> Result<recrypt::api::EncryptedValue, recrypt::api::RecryptErr> {
    recrypt::api::Recrypt::new().transform(v.clone(), k.clone(), signer)
}

/// Relies on recrypt's decrypt: recover the plaintext of an encrypted or
/// transformed value with the matching private key.
#[verifier::external_body]
fn recrypt_decrypt(
    v: &recrypt::api::EncryptedValue,
    sk: &recrypt::api::PrivateKey,
) -> Result<recrypt::api::Plaintext, recrypt::api::RecryptErr> {
    recrypt::api::Recrypt::new().decrypt(v.clone(), sk)
}

/// Relies on the field layout of recrypt's EncryptedValue: a transformed
/// value carries a 384-byte encrypted message, a 32-byte auth hash, at
/// least one transform block, a 32-byte signing key and a 64-byte
/// signature. A once-encrypted value has no blocks and yields nothing.
#[verifier::external_body]
fn transformed_parts(v: &recrypt::api::EncryptedValue) -> (r: Option<
    (
        recrypt::api::PublicKey,
        Vec<u8>,
        Vec<u8>,
        Vec<recrypt::api::TransformBlock>,
        Vec<u8>,
        Vec<u8>,
    ),
>)
    ensures
        r matches Some(t) ==> t.1@.len() == 384 && t.2@.len() == 32 && t.3@.len() >= 1
            && t.4@.len() == 32 && t.5@.len() == 64,
{
    match v {
        recrypt::api::EncryptedValue::TransformedValue {
            ephemeral_public_key: ep, encrypted_message: em, auth_hash: ah,
            transform_blocks: tb, public_signing_key: ps, signature: sg,
        } => Some((
            *ep, em.bytes().to_vec(), ah.bytes().to_vec(), tb.to_vec(),
            ps.bytes().to_vec(), sg.bytes().to_vec(),
        )),
        recrypt::api::EncryptedValue::EncryptedOnceValue { .. } => None,
    }
}

/// Relies on recrypt's TransformBlock accessors: the block public key, the
/// 384-byte encrypted temp key, the random-transform public key, and its
/// 384-byte encrypted temp key.
#[verifier::external_body]
fn block_parts(b: &recrypt::api::TransformBlock) -> (r: (
    recrypt::api::PublicKey,
    Vec<u8>,
    recrypt::api::PublicKey,
    Vec<u8>,
))
    ensures
        r.1@.len() == 384,
        r.3@.len() == 384,
{
    (
        *b.public_key(),
        b.encrypted_temp_key().bytes().to_vec(),
        *b.random_transform_public_key(),
        b.encrypted_random_transform_temp_key().bytes().to_vec(),
    )
}

/// Relies on RecryptErr's display rendering for the error text.
#[verifier::external_body]
fn recrypt_err_text(e: &recrypt::api::RecryptErr) -> String {
    format!("{}", e)
}

/// Turn a recrypt error into the library's crypto error.
fn crypto_error(e: &recrypt::api::RecryptErr) -> (r: AppError)
    ensures
        r is Crypto,
{
    AppError::Crypto(recrypt_err_text(e))
}

/// A well-formed transform block record: curve coordinates of 32 bytes and
/// encrypted temp keys of 384 bytes.
pub open spec fn wf_block_record(b: TransformBlockRecordV) -> bool {
    &&& b.public_key.x.len() == 32
    &&& b.public_key.y.len() == 32
    &&& b.encrypted_temp_key.len() == 384
    &&& b.random_transform_public_key.x.len() == 32
    &&& b.random_transform_public_key.y.len() == 32
    &&& b.encrypted_random_transform_temp_key.len() == 384
}

/// A well-formed single-hop transformed record: every field at its
/// documented width and exactly one transform block.
pub open spec fn wf_transformed_record(r: TransformedRecordV) -> bool {
    &&& r.ephemeral_public_key.x.len() == 32
    &&& r.ephemeral_public_key.y.len() == 32
    &&& r.encrypted_message.len() == 384
    &&& r.auth_hash.len() == 32
    &&& r.transform_blocks.len() == 1
    &&& wf_block_record(r.transform_blocks[0])
    &&& r.public_signing_key.len() == 32
    &&& r.ed25519_signature.len() == 64
}

/// An encrypted value together with what the pipeline knows about it:
/// whether it has already been transformed. The single-hop policy rests on
/// this tag.
pub struct CipherValue {
    value: recrypt::api::EncryptedValue,
    transformed: bool,
}

impl CipherValue {
    /// Whether the value has been transformed already.
    pub closed spec fn is_transformed(&self) -> bool {
        self.transformed
    }

    /// Whether the value has been transformed already.
    pub fn transformed(&self) -> (r: bool)
        ensures
            r == self.is_transformed(),
    {
        self.transformed
    }
}

/// A fresh signing keypair for authenticating pipeline artifacts.
pub fn new_signing_keypair() -> recrypt::api::SigningKeypair {
    generate_signing_keypair()
}

/// A fresh random plaintext, in its 384-byte encoding.
pub fn generate_plaintext() -> (r: Vec<u8>)
    ensures
        r@.len() == 384,
{
    let p = gen_plaintext();
    plaintext_bytes(&p)
}

/// Generate a fresh keypair and hand it out as raw bytes: a 32-byte
/// private key and two 32-byte public coordinates.
pub fn generate_keys() -> (r: Result<Keys, AppError>)
    ensures
        r matches Ok(k) ==> k.private_key@.len() == 32 && k.public_key_x@.len() == 32
            && k.public_key_y@.len() == 32,
        r is Err ==> r->Err_0 is Crypto,
{
    let (private_key, public_key) = match recrypt_generate_key_pair() {
        Ok(pair) => pair,
        Err(e) => {
            return Err(crypto_error(&e));
        },
    };
    let (x, y) = public_key_coords(&public_key);
    Ok(Keys { private_key: private_key_bytes(&private_key), public_key_x: x, public_key_y: y })
}

/// Encrypt a 384-byte plaintext under the owner public key, signing with
/// the given keypair. Inputs of the wrong width are rejected as crypto
/// errors before any curve work.
pub fn encrypt_value(
    plaintext: &Vec<u8>,
    owner_pk_x: &Vec<u8>,
    owner_pk_y: &Vec<u8>,
    signer: &recrypt::api::SigningKeypair,
) -> (r: Result<CipherValue, AppError>)
    ensures
        r matches Ok(v) ==> !v.is_transformed(),
        plaintext@.len() != 384 ==> r is Err,
        owner_pk_x@.len() != 32 || owner_pk_y@.len() != 32 ==> r is Err,
        r is Err ==> r->Err_0 is Crypto,
{
    let p = match plaintext_from_bytes(plaintext) {
        Ok(p) => p,
        Err(e) => {
            return Err(crypto_error(&e));
        },
    };
    let pk = match public_key_from_bytes(owner_pk_x, owner_pk_y) {
        Ok(pk) => pk,
        Err(e) => {
            return Err(crypto_error(&e));
        },
    };
    match recrypt_encrypt(&p, &pk, signer) {
        Ok(value) => Ok(CipherValue { value, transformed: false }),
        Err(e) => Err(crypto_error(&e)),
    }
}

/// Derive the transform key from the owner private key toward the
/// delegatee public key. Inputs of the wrong width are rejected as crypto
/// errors before any curve work.
pub fn derive_transform_key(
    owner_sk: &Vec<u8>,
    delegatee_pk_x: &Vec<u8>,
    delegatee_pk_y: &Vec<u8>,
    signer: &recrypt::api::SigningKeypair,
) -> (r: Result<recrypt::api::TransformKey, AppError>)
    ensures
        owner_sk@.len() != 32 ==> r is Err,
        delegatee_pk_x@.len() != 32 || delegatee_pk_y@.len() != 32 ==> r is Err,
        r is Err ==> r->Err_0 is Crypto,
{
    let sk = match private_key_from_bytes(owner_sk) {
        Ok(sk) => sk,
        Err(e) => {
            return Err(crypto_error(&e));
        },
    };
    let pk = match public_key_from_bytes(delegatee_pk_x, delegatee_pk_y) {
        Ok(pk) => pk,
        Err(e) => {
            return Err(crypto_error(&e));
        },
    };
    match recrypt_generate_transform_key(&sk, &pk, signer) {
        Ok(k) => Ok(k),
        Err(e) => Err(crypto_error(&e)),
    }
}

/// Transform an encrypted value exactly once. A value that has already
/// been transformed is rejected with a crypto error: this system performs
/// a single hop only.
pub fn transform_value(
    v: &CipherValue,
    key: &recrypt::api::TransformKey,
    signer: &recrypt::api::SigningKeypair,
) -> (r: Result<CipherValue, AppError>)
    ensures
        v.is_transformed() ==> r is Err,
        r matches Ok(t) ==> t.is_transformed() && !v.is_transformed(),
        r is Err ==> r->Err_0 is Crypto,
{
    if v.transformed() {
        return Err(AppError::Crypto(String::from_str("value is already transformed")));
    }
    match recrypt_transform(&v.value, key, signer) {
        Ok(value) => Ok(CipherValue { value, transformed: true }),
        Err(e) => Err(crypto_error(&e)),
    }
}

/// Decrypt a value with a 32-byte private key and return the recovered
/// 384-byte plaintext.
pub fn decrypt_value(v: &CipherValue, private_key: &Vec<u8>) -> (r: Result<Vec<u8>, AppError>)
    ensures
        private_key@.len() != 32 ==> r is Err,
        r matches Ok(p) ==> p@.len() == 384,
        r is Err ==> r->Err_0 is Crypto,
{
    let sk = match private_key_from_bytes(private_key) {
        Ok(sk) => sk,
        Err(e) => {
            return Err(crypto_error(&e));
        },
    };
    match recrypt_decrypt(&v.value, &sk) {
        Ok(p) => Ok(plaintext_bytes(&p)),
        Err(e) => Err(crypto_error(&e)),
    }
}

/// Flatten a transformed value into its byte record. Only a transformed
/// value with exactly one block — the single hop this system performs —
/// is accepted; anything else is a crypto error.
pub fn transformed_record(v: &CipherValue) -> (r: Result<TransformedRecord, AppError>)
    ensures
        !v.is_transformed() ==> r is Err,
        r matches Ok(rec) ==> wf_transformed_record(rec@),
        r is Err ==> r->Err_0 is Crypto,
{
    if !v.transformed() {
        return Err(AppError::Crypto(String::from_str("value is not transformed")));
    }
    let parts = match transformed_parts(&v.value) {
        Some(parts) => parts,
        None => {
            return Err(AppError::Crypto(String::from_str("value is not transformed")));
        },
    };
    let (ep, encrypted_message, auth_hash, blocks, public_signing_key, ed25519_signature) = parts;
    if blocks.len() != 1 {
        return Err(AppError::Crypto(String::from_str("value is beyond a single hop")));
    }
    let (bpk, encrypted_temp_key, rpk, encrypted_random_transform_temp_key) = block_parts(
        &blocks[0],
    );
    let (ex, ey) = public_key_coords(&ep);
    let (bx, by) = public_key_coords(&bpk);
    let (rx, ry) = public_key_coords(&rpk);
    let block = TransformBlockRecord {
        public_key: PublicKeyPair { x: bx, y: by },
        encrypted_temp_key,
        random_transform_public_key: PublicKeyPair { x: rx, y: ry },
        encrypted_random_transform_temp_key,
    };
    let mut transform_blocks: Vec<TransformBlockRecord> = Vec::new();
    transform_blocks.push(block);
    let record = TransformedRecord {
        ephemeral_public_key: PublicKeyPair { x: ex, y: ey },
        encrypted_message,
        auth_hash,
        transform_blocks,
        public_signing_key,
        ed25519_signature,
    };
    Ok(record)
}

/// Run the whole pipeline for one request: encrypt the plaintext under the
/// owner key, derive the transform key toward the delegatee, transform
/// once, and flatten the result. Key material of the wrong width is
/// rejected; any failing step aborts with its crypto error and no partial
/// result.
pub fn run_reencryption(payload: &Payload, plaintext: &Vec<u8>) -> (r: Result<
    TransformedRecord,
    AppError,
>)
    ensures
        r matches Ok(rec) ==> wf_transformed_record(rec@),
        plaintext@.len() != 384 ==> r is Err,
        payload.initial_private_key@.len() != 32 ==> r is Err,
        payload.initial_public_key_x@.len() != 32 || payload.initial_public_key_y@.len() != 32
            ==> r is Err,
        payload.delegatee_public_key_x@.len() != 32 || payload.delegatee_public_key_y@.len() != 32
            ==> r is Err,
        r is Err ==> r->Err_0 is Crypto,
{
    let signer = new_signing_keypair();
    let encrypted = match encrypt_value(
        plaintext,
        &payload.initial_public_key_x,
        &payload.initial_public_key_y,
        &signer,
    ) {
        Ok(v) => v,
        Err(e) => {
            return Err(e);
        },
    };
    let transform_key = match derive_transform_key(
        &payload.initial_private_key,
        &payload.delegatee_public_key_x,
        &payload.delegatee_public_key_y,
        &signer,
    ) {
        Ok(k) => k,
        Err(e) => {
            return Err(e);
        },
    };
    let transformed = match transform_value(&encrypted, &transform_key, &signer) {
        Ok(v) => v,
        Err(e) => {
            return Err(e);
        },
    };
    transformed_record(&transformed)
}

/// The reply body for one pipeline result: the binary wire form of the
/// record, hex-encoded.
pub fn fetch_response(record: &TransformedRecord) -> (r: TransformedObjectResponse)
    ensures
        r.transformed_object@ == hex_of(enc_record(record@)),
{
    let bytes = encode_binary(record);
    TransformedObjectResponse { transformed_object: hex_encode(&bytes) }
}

/// The full reply for one pipeline result: the sender key and resource
/// echoed back hex-encoded, the binary wire form hex-encoded, and the
/// display rendering of the record.
pub fn encrypted_response(payload: &Payload, record: &TransformedRecord) -> (r: EncryptedResponse)
    requires
        record@.transform_blocks.len() >= 1,
    ensures
        r.sender_public_key@ == hex_of(payload.initial_public_key_x@),
        r.encrypted_resource@ == hex_of(payload.resource@),
        r.transformed@ == hex_of(enc_record(record@)),
        is_display_of(r.transformed_response, record@),
{
    let bytes = encode_binary(record);
    EncryptedResponse {
        sender_public_key: hex_encode(&payload.initial_public_key_x),
        encrypted_resource: hex_encode(&payload.resource),
        transformed: hex_encode(&bytes),
        transformed_response: encode_display(record),
    }
}

} // verus!
