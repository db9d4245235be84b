//! Identity key material and hashing.
//!
//! A node's long-term identity is an Ed25519 signing keypair; the secret
//! key is held as its 32-byte seed.  Hashing is SHA-256, used by the
//! storage layer for content addressing.

use vstd::prelude::*;

use sha2::Digest;

verus! {

/// Number of bytes in a hash.
pub const HASH_SIZE: usize = 32;

/// Number of bytes in a public key.
pub const PUBLIC_KEY_LENGTH: usize = 32;

/// Number of bytes in a secret-key seed.
pub const SEED_LENGTH: usize = 32;

/// An Ed25519 identity (signing) public key.
#[derive(Clone, Copy, Debug)]
pub struct PublicKey {
    /// The encoded point.
    pub bytes: [u8; 32],
}

impl View for PublicKey {
    type V = Seq<u8>;

    open spec fn view(&self) -> Seq<u8> {
        self.bytes@
    }
}

impl PublicKey {
    /// Wraps raw key bytes.
    pub fn from_bytes(bytes: [u8; 32]) -> (r: Self)
        ensures
            r@ == bytes@,
    {
        PublicKey { bytes }
    }

    /// The raw key bytes.
    pub fn as_bytes(&self) -> (r: &[u8; 32])
        ensures
            r@ == self@,
    {
        &self.bytes
    }
}

/// An Ed25519 identity (signing) secret key, held as its seed.
#[derive(Clone, Copy)]
pub struct SecretKey {
    /// The 32-byte seed the keypair is derived from.
    pub bytes: [u8; 32],
}

impl View for SecretKey {
    type V = Seq<u8>;

    open spec fn view(&self) -> Seq<u8> {
        self.bytes@
    }
}

impl SecretKey {
    /// Wraps a raw seed.
    pub fn from_bytes(bytes: [u8; 32]) -> (r: Self)
        ensures
            r@ == bytes@,
    {
        SecretKey { bytes }
    }
}

/// A SHA-256 digest.
#[derive(Clone, Copy, Debug, PartialEq, Eq)]
pub struct Hash {
    /// The digest bytes.
    pub bytes: [u8; 32],
}

impl View for Hash {
    type V = Seq<u8>;

    open spec fn view(&self) -> Seq<u8> {
        self.bytes@
    }
}

impl Hash {
    /// Wraps raw digest bytes.
    pub fn from_bytes(bytes: [u8; 32]) -> (r: Self)
        ensures
            r@ == bytes@,
    {
        Hash { bytes }
    }

    /// The raw digest bytes.
    pub fn as_bytes(&self) -> (r: &[u8; 32])
        ensures
            r@ == self@,
    {
        &self.bytes
    }
}

/// Compares two 32-byte arrays byte for byte.
pub fn bytes32_eq(a: &[u8; 32], b: &[u8; 32]) -> (r: bool)
    ensures
        r == (a@ == b@),
{
    let mut i: usize = 0;
    while i < 32
        invariant
            i <= 32,
            forall|j: int| 0 <= j < i ==> a@[j] == b@[j],
        decreases 32 - i,
    {
        if a[i] != b[i] {
            return false;
        }
        i = i + 1;
    }
    proof {
        assert(a@ =~= b@);
    }
    true
}

/// Copies a 32-byte vector into an array; `None` for any other length.
pub fn bytes32_from_vec(v: &Vec<u8>) -> (r: Option<[u8; 32]>)
    ensures
        r is Some <==> v@.len() == 32,
        r matches Some(a) ==> a@ == v@,
{
    if v.len() != 32 {
        return None;
    }
    let arr: [u8; 32] = [
        v[0], v[1], v[2], v[3], v[4], v[5], v[6], v[7],
        v[8], v[9], v[10], v[11], v[12], v[13], v[14], v[15],
        v[16], v[17], v[18], v[19], v[20], v[21], v[22], v[23],
        v[24], v[25], v[26], v[27], v[28], v[29], v[30], v[31],
    ];
    proof {
        assert(arr@ =~= v@);
    }
    Some(arr)
}

/// An element-wise copy of a byte vector.
pub fn copy_bytes(v: &Vec<u8>) -> (r: Vec<u8>)
    ensures
        r@ == v@,
{
    let n = v.len();
    let mut out: Vec<u8> = Vec::new();
    let mut i: usize = 0;
    while i < n
        invariant
            i <= n,
            n == v@.len(),
            out@ =~= v@.subrange(0, i as int),
        decreases n - i,
    {
        let byte = v[i];
        out.push(byte);
        i = i + 1;
    }
    proof {
        assert(v@.subrange(0, v@.len() as int) =~= v@);
    }
    out
}

/// The SHA-256 digest of a byte sequence.
pub uninterp spec fn sha256_of(data: Seq<u8>) -> Seq<u8>;

/// The Ed25519 public key derived from a secret-key seed.
pub uninterp spec fn ed_public_of(seed: Seq<u8>) -> Seq<u8>;

/// Holds when a byte string is the canonical encoding of an Ed25519
/// public key, i.e. when decoding it succeeds.
pub uninterp spec fn ed_public_decodes(ed_public: Seq<u8>) -> bool;

/// Relies on sha2::Sha256::digest: the digest is a function of the input
/// bytes alone.
#[verifier::external_body]
pub fn hash(data: &[u8]) -> (r: Hash)
    ensures
        r@ == sha256_of(data@),
{
    let digest = sha2::Sha256::digest(data);
    let mut bytes = [0u8; 32];
    bytes.copy_from_slice(&digest[..]);
    Hash { bytes }
}

/// Relies on ed25519_dalek::SigningKey::{from_bytes, verifying_key}: the
/// public key is a function of the seed alone, and a key produced this
/// way is always a canonically encoded point, so decoding it succeeds.
#[verifier::external_body]
pub fn gen_keypair_from_seed(seed: &[u8; 32]) -> (r: (PublicKey, SecretKey))
    ensures
        r.0@ == ed_public_of(seed@),
        r.1@ == seed@,
        ed_public_decodes(r.0@),
{
    let signing = ed25519_dalek::SigningKey::from_bytes(seed);
    let public = signing.verifying_key().to_bytes();
    (PublicKey { bytes: public }, SecretKey { bytes: *seed })
}

/// The ability to compute a cryptographic hash of a value.
pub trait CryptoHash {
    /// The bytes the hash is computed over.
    spec fn hash_input(&self) -> Seq<u8>;

    /// Returns the hash of the value: the digest of its input bytes.
    fn hash(&self) -> (r: Hash)
        ensures
            r@ == sha256_of(self.hash_input()),
    ;
}

/// A common trait for the ability to compute a unique hash.
///
/// Unlike `CryptoHash`, the hash value returned by the `UniqueHash::hash()`
/// method isn't always irreversible.  This hash is used, for example, in
/// the storage as a key, as uniqueness is important in this case.
pub trait UniqueHash {
    /// The bytes the hash is computed over.
    spec fn unique_hash_input(&self) -> Seq<u8>;

    /// Returns a hash of the value.
    ///
    /// Hash must be unique, but not necessarily cryptographic.
    fn hash(&self) -> (r: Hash)
        ensures
            r@ == sha256_of(self.unique_hash_input()),
    ;
}

impl<T: CryptoHash> UniqueHash for T {
    /// The storage-key hash of a cryptographically hashable value is
    /// computed over exactly the same bytes.
    open spec fn unique_hash_input(&self) -> Seq<u8> {
        self.hash_input()
    }

    fn hash(&self) -> (r: Hash) {
        CryptoHash::hash(self)
    }
}

} // verus!
