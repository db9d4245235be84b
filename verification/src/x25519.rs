//! Key-agreement-curve representation of identity keys.
//!
//! The handshake runs Diffie-Hellman on Curve25519 in Montgomery form,
//! while node identities are Ed25519 signing keys.  The conversions here
//! are deterministic functions of the signing key: a parameter set is
//! converted once and the converted keys are never regenerated
//! mid-attempt.

use vstd::prelude::*;

use crate::crypto;
use crate::crypto::ed_public_decodes;

verus! {

/// An X25519 (key-agreement) public key.
#[derive(Clone, Copy, Debug)]
pub struct PublicKey {
    /// The Montgomery-form point.
    pub bytes: [u8; 32],
}

impl View for PublicKey {
    type V = Seq<u8>;

    open spec fn view(&self) -> Seq<u8> {
        self.bytes@
    }
}

impl PublicKey {
    /// Wraps raw key bytes.
    pub fn from_bytes(bytes: [u8; 32]) -> (r: Self)
        ensures
            r@ == bytes@,
    {
        PublicKey { bytes }
    }
}

/// An X25519 (key-agreement) secret scalar.
#[derive(Clone, Copy)]
pub struct SecretKey {
    /// The scalar bytes.
    pub bytes: [u8; 32],
}

impl View for SecretKey {
    type V = Seq<u8>;

    open spec fn view(&self) -> Seq<u8> {
        self.bytes@
    }
}

/// Compares two key-agreement public keys byte for byte.
pub fn public_key_eq(a: &PublicKey, b: &PublicKey) -> (r: bool)
    ensures
        r == (a@ == b@),
{
    crypto::bytes32_eq(&a.bytes, &b.bytes)
}

/// The X25519 public key corresponding to an Ed25519 public key.
pub uninterp spec fn x25519_public_of(ed_public: Seq<u8>) -> Seq<u8>;

/// The X25519 secret scalar corresponding to an Ed25519 secret-key seed.
pub uninterp spec fn x25519_secret_of(ed_seed: Seq<u8>) -> Seq<u8>;

/// Relies on ed25519_dalek::VerifyingKey::{from_bytes, to_montgomery}:
/// decoding succeeds exactly for canonically encoded points, and the
/// Montgomery form is a function of the key bytes alone.
#[verifier::external_body]
fn ed_to_x25519_public(ed_public: &[u8; 32]) -> (r: Option<[u8; 32]>)
    ensures
        r is Some <==> ed_public_decodes(ed_public@),
        r matches Some(v) ==> v@ == x25519_public_of(ed_public@),
{
    match ed25519_dalek::VerifyingKey::from_bytes(ed_public) {
        Ok(vk) => Some(vk.to_montgomery().to_bytes()),
        Err(_) => None,
    }
}

/// Relies on ed25519_dalek::SigningKey::{from_bytes, to_scalar_bytes}:
/// the scalar is a function of the seed alone, and is a valid X25519
/// secret for the converted public key.
#[verifier::external_body]
fn ed_to_x25519_secret(ed_seed: &[u8; 32]) -> (r: [u8; 32])
    ensures
        r@ == x25519_secret_of(ed_seed@),
{
    ed25519_dalek::SigningKey::from_bytes(ed_seed).to_scalar_bytes()
}

/// Converts a signing keypair into its key-agreement-curve form.
///
/// Returns `None` exactly when the public key is not a canonically
/// encoded point; the conversion itself is deterministic.
pub fn into_x25519_keypair(
    public_key: &crypto::PublicKey,
    secret_key: &crypto::SecretKey,
) -> (r: Option<(PublicKey, SecretKey)>)
    ensures
        r is Some <==> ed_public_decodes(public_key@),
        r matches Some(pair) ==> pair.0@ == x25519_public_of(public_key@)
            && pair.1@ == x25519_secret_of(secret_key@),
{
    match ed_to_x25519_public(&public_key.bytes) {
        Some(public_bytes) => {
            let secret_bytes = ed_to_x25519_secret(&secret_key.bytes);
            Some((PublicKey { bytes: public_bytes }, SecretKey { bytes: secret_bytes }))
        },
        None => None,
    }
}

/// Converts a signing public key into its key-agreement-curve form.
///
/// Returns `None` exactly when the key is not a canonically encoded
/// point.
pub fn into_x25519_public_key(public_key: &crypto::PublicKey) -> (r: Option<PublicKey>)
    ensures
        r is Some <==> ed_public_decodes(public_key@),
        r matches Some(k) ==> k@ == x25519_public_of(public_key@),
{
    match ed_to_x25519_public(&public_key.bytes) {
        Some(bytes) => Some(PublicKey { bytes }),
        None => None,
    }
}

} // verus!
