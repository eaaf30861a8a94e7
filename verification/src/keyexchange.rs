//! The key-exchange step of the enclave channel.
//!
//! The first frame on a connection carries the peer's 32-byte public key.
//! This module validates that frame, generates a fresh signing keypair, and
//! encrypts the generated key material under the peer's key for the reply.
//! The curve work is the ecies and ed25519 crates', reached through the
//! trusted items below; the validation, the length bookkeeping and the
//! error mapping are verified. Reading the frame itself is the caller's
//! transport work.

use crate::errors::AppError;
use rand::Rng;
use vstd::prelude::*;

verus! {

/// The largest key blob a peer may send in its first frame.
pub const BUF_MAX_LEN: usize = 32;

/// The byte overhead of one asymmetric encryption: a 32-byte ephemeral
/// public key, a 12-byte nonce and a 16-byte authentication tag.
pub const ENCRYPTION_OVERHEAD: usize = 60;

#[verifier::external_type_specification]
#[verifier::external_body]
pub struct ExEciesPublicKey(ecies_ed25519::PublicKey);

#[verifier::external_type_specification]
#[verifier::external_body]
pub struct ExEciesError(ecies_ed25519::Error);

/// Relies on the thread RNG's fill_bytes for a fresh 32-byte seed.
#[verifier::external_body]
fn random_seed_32() -> (r: Vec<u8>)
    ensures
        r@.len() == 32,
{
    let mut seed = vec![0u8; 32];
    rand::rng().fill_bytes(&mut seed);
    seed
}

/// Relies on ed25519_dalek's SigningKey::from_bytes and verifying_key:
/// a 32-byte seed yields a 32-byte public and a 32-byte private key.
#[verifier::external_body]
fn ed25519_keypair_from_seed(seed: &Vec<u8>) -> (r: (Vec<u8>, Vec<u8>))
    requires
        seed@.len() == 32,
    ensures
        r.0@.len() == 32,
        r.1@.len() == 32,
{
    let mut bytes = [0u8; 32];
    bytes.copy_from_slice(seed.as_slice());
    let signing_key = ed25519_dalek::SigningKey::from_bytes(&bytes);
    (signing_key.verifying_key().to_bytes().to_vec(), signing_key.to_bytes().to_vec())
}

/// Relies on ecies_ed25519's PublicKey::from_bytes: exactly 32 bytes that
/// name a decompressible curve point.
#[verifier::external_body]
fn ecies_parse_public_key(b: &Vec<u8>) -> (r: Result<
    ecies_ed25519::PublicKey,
    ecies_ed25519::Error,
>)
    ensures
        r is Ok ==> b@.len() == 32,
        b@.len() != 32 ==> r is Err,
{
    ecies_ed25519::PublicKey::from_bytes(b.as_slice())
}

/// Relies on ecies_ed25519's encrypt with a fresh thread RNG: the
/// ciphertext is the ephemeral key, the nonce, the message and the tag.
#[verifier::external_body]
fn ecies_encrypt(pk: &ecies_ed25519::PublicKey, msg: &Vec<u8>) -> (r: Result<
    Vec<u8>,
    ecies_ed25519::Error,
>)
    ensures
        r matches Ok(c) ==> c@.len() == msg@.len() + ENCRYPTION_OVERHEAD,
{
    let mut rng = rand::rng();
    ecies_ed25519::encrypt(pk, msg.as_slice(), &mut rng)
}

/// Relies on the ecies error's display rendering for the error text.
#[verifier::external_body]
fn ecies_err_text(e: &ecies_ed25519::Error) -> String {
    format!("{}", e)
}

/// Check the announced length of an incoming key frame against the fixed
/// maximum, before any bytes are read.
pub fn check_key_frame_len(len: u64) -> (r: Result<usize, AppError>)
    ensures
        r matches Ok(n) ==> n == len && len <= BUF_MAX_LEN,
        len <= BUF_MAX_LEN ==> r is Ok,
        len > BUF_MAX_LEN ==> r is Err,
        r is Err ==> r->Err_0 is KeyFormat,
{
    if len <= BUF_MAX_LEN as u64 {
        Ok(len as usize)
    } else {
        Err(AppError::KeyFormat(String::from_str("peer key frame is too long")))
    }
}

/// What one key exchange hands back: the peer's key as received, the
/// freshly generated public key, and the generated key material encrypted
/// under the peer's key for the reply.
pub struct ExchangeResult {
    pub peer_public_key: Vec<u8>,
    pub generated_public_key: Vec<u8>,
    pub encrypted_public_key: Vec<u8>,
    pub encrypted_private_key: Vec<u8>,
}

/// Perform the key-exchange step on one received key frame: validate the
/// peer key, generate a fresh signing keypair, and encrypt both halves of
/// it under the peer's key. A frame that is not a 32-byte curve point is
/// rejected as a key-format error.
pub fn key_exchange(frame: &Vec<u8>) -> (r: Result<ExchangeResult, AppError>)
    ensures
        frame@.len() != 32 ==> r is Err && r->Err_0 is KeyFormat,
        r matches Ok(x) ==> {
            &&& x.peer_public_key@ == frame@
            &&& x.generated_public_key@.len() == 32
            &&& x.encrypted_public_key@.len() == 32 + ENCRYPTION_OVERHEAD
            &&& x.encrypted_private_key@.len() == 32 + ENCRYPTION_OVERHEAD
        },
        r is Err ==> r->Err_0 is KeyFormat || r->Err_0 is Crypto,
{
    let peer = match ecies_parse_public_key(frame) {
        Ok(pk) => pk,
        Err(e) => {
            return Err(AppError::KeyFormat(ecies_err_text(&e)));
        },
    };
    let seed = random_seed_32();
    let (generated_public_key, generated_private_key) = ed25519_keypair_from_seed(&seed);
    let encrypted_public_key = match ecies_encrypt(&peer, &generated_public_key) {
        Ok(c) => c,
        Err(e) => {
            return Err(AppError::Crypto(ecies_err_text(&e)));
        },
    };
    let encrypted_private_key = match ecies_encrypt(&peer, &generated_private_key) {
        Ok(c) => c,
        Err(e) => {
            return Err(AppError::Crypto(ecies_err_text(&e)));
        },
    };
    let mut peer_public_key: Vec<u8> = Vec::new();
    let mut i: usize = 0;
    while i < frame.len()
        invariant
            0 <= i <= frame@.len(),
            peer_public_key@ == frame@.take(i as int),
        decreases frame@.len() - i,
    {
        peer_public_key.push(frame[i]);
        i += 1;
        proof {
            assert(peer_public_key@ =~= frame@.take(i as int));
        }
    }
    proof {
        assert(frame@.take(frame@.len() as int) =~= frame@);
    }
    Ok(
        ExchangeResult {
            peer_public_key,
            generated_public_key,
            encrypted_public_key,
            encrypted_private_key,
        },
    )
}

} // verus!
