//! Secure channel establishment for a peer-to-peer validator node.
//!
//! The crate centres on the Noise-based handshake that turns a raw,
//! untrusted byte stream into a mutually authenticated, encrypted, framed
//! transport: length-prefixed raw-message framing, the three-message
//! handshake schedule in both roles, admission control against an
//! operator-managed connect list, and the hand-off to an encrypted
//! message codec.  Supporting pieces of the node (genesis configuration,
//! storage options and errors, Merkle branch nodes, service plumbing)
//! live in their own modules.

pub mod codec;
pub mod config;
pub mod connect_list;
pub mod crypto;
pub mod error;
pub mod frame;
pub mod genesis;
pub mod handshake;
pub mod proof_map;
pub mod service;
pub mod storage;
pub mod stream;
pub mod wrapper;
pub mod x25519;
