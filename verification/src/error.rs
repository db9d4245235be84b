//! Error taxonomy of the secure channel.
//!
//! Failures are local to one connection attempt: none of them affects
//! other attempts or the process as a whole.  Authorization failures are
//! kept distinct from cryptographic ones so operators can tell an
//! untrusted peer from a broken link.

use vstd::prelude::*;

verus! {

#[verifier::external_type_specification]
#[verifier::external_body]
pub struct ExSnowError(snow::Error);

/// An error at the noise protocol layer.
#[derive(Debug)]
pub enum NoiseError {
    /// A frame declared a length above the configured maximum; holds the
    /// declared length.
    WrongMessageLength(usize),
    /// Any other failure, described in words.
    Other(String),
    /// The cryptographic engine rejected a message (malformed, replayed
    /// or failing authentication).
    Snow(snow::Error),
}

impl From<snow::Error> for NoiseError {
    fn from(err: snow::Error) -> (r: NoiseError) {
        NoiseError::Snow(err)
    }
}

impl vstd::std_specs::convert::FromSpecImpl<snow::Error> for NoiseError {
    open spec fn obeys_from_spec() -> bool {
        true
    }

    open spec fn from_spec(err: snow::Error) -> Self {
        NoiseError::Snow(err)
    }
}

/// What ended a connection attempt.
#[derive(Debug)]
pub enum HandshakeErrorKind {
    /// The noise layer failed: an over-long frame or a cryptographic
    /// rejection.  Aborts only the current attempt.
    Noise(NoiseError),
    /// The revealed static key of the peer is not in the connect list.
    /// Kept distinct from cryptographic failure for observability.
    Unauthorized,
    /// A structurally complete exchange broke a protocol invariant, such
    /// as a missing remote static key.  A defect, surfaced loudly.
    InvariantViolation(String),
    /// The underlying stream failed (reset, closed or timed out).  Only
    /// I/O adapters around the library produce this kind.
    Io(String),
}

/// The failure of one connection attempt, annotated with the network
/// address of the peer so that operators can correlate failures to
/// remote endpoints.
#[derive(Debug)]
pub struct HandshakeError {
    /// The address of the peer the attempt was speaking to.
    pub peer: String,
    /// What went wrong.
    pub kind: HandshakeErrorKind,
}

impl HandshakeError {
    /// Annotates a failure kind with the peer it came from.
    pub fn new(peer: String, kind: HandshakeErrorKind) -> (r: Self)
        ensures
            r.peer == peer,
            r.kind == kind,
    {
        HandshakeError { peer, kind }
    }
}

} // verus!
