//! Plain data records exchanged with the boundary layers.
//!
//! These are the request and response shapes of the HTTP-facing boundary:
//! byte vectors for key material going in, hex strings for the rendered
//! objects going out. They hold no behaviour of their own; the pipeline and
//! the encoder fill them.

use vstd::prelude::*;

verus! {

/// The request body of a re-encryption call: the owner keypair, the
/// delegatee public key, and the resource to work on, all as raw bytes.
#[derive(Debug, PartialEq, Eq, Clone)]
pub struct Payload {
    pub initial_private_key: Vec<u8>,
    pub initial_public_key_x: Vec<u8>,
    pub initial_public_key_y: Vec<u8>,
    pub delegatee_public_key_x: Vec<u8>,
    pub delegatee_public_key_y: Vec<u8>,
    pub resource: Vec<u8>,
}

/// A freshly generated keypair handed back to the caller: the private key
/// and the two public-key coordinates, as raw bytes.
#[derive(Debug, PartialEq, Eq, Clone, Default)]
pub struct Keys {
    pub private_key: Vec<u8>,
    pub public_key_x: Vec<u8>,
    pub public_key_y: Vec<u8>,
}

/// A public key rendered as two hex-string coordinates.
#[derive(Debug, PartialEq, Eq, Clone, Default)]
pub struct TransformPublicKeyCollection {
    pub public_key_x: String,
    pub public_key_y: String,
}

/// One transform block rendered for display: every byte field hex-encoded.
#[derive(Debug, PartialEq, Eq, Clone, Default)]
pub struct TransformedBlockResponse {
    pub public_key: TransformPublicKeyCollection,
    pub encrypted_temp_key: String,
    pub encrypted_random_transform_temp_key: String,
    pub random_transform_public_key: TransformPublicKeyCollection,
}

/// A transformed value rendered for display: every byte field hex-encoded.
/// Display form only; it is not meant to be parsed back.
#[derive(Debug, PartialEq, Eq, Clone, Default)]
pub struct TransformedObject {
    pub ephemeral_public_key: TransformPublicKeyCollection,
    pub encrypted_message: String,
    pub auth_hash: String,
    pub transform_blocks: TransformedBlockResponse,
    pub public_signing_key: String,
    pub ed25519_signature: String,
}

/// The full reply of a re-encryption call: the sender key and resource
/// echoed back hex-encoded, the binary wire object hex-encoded, and the
/// display rendering beside it.
#[derive(Debug, PartialEq, Eq, Clone)]
pub struct EncryptedResponse {
    pub sender_public_key: String,
    pub encrypted_resource: String,
    pub transformed: String,
    pub transformed_response: TransformedObject,
}

/// The reply body carrying one hex-encoded binary wire object.
#[derive(Debug, PartialEq, Eq, Clone, Default)]
pub struct TransformedObjectResponse {
    pub transformed_object: String,
}

} // verus!
