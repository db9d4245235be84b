//! The cryptographic session engine.
//!
//! The key-agreement protocol itself is external: an opaque session
//! object that consumes and produces handshake messages, reveals the
//! peer's static key, and can move one-way into transport mode, where it
//! encrypts and decrypts application messages.  Everything the library
//! proves about the handshake holds whatever bytes the engine returns.

use vstd::prelude::*;

use crate::error::NoiseError;
use crate::handshake::HandshakeParams;

verus! {

#[verifier::external_type_specification]
#[verifier::external_body]
pub struct ExHandshakeState(snow::HandshakeState);

#[verifier::external_type_specification]
#[verifier::external_body]
pub struct ExTransportState(snow::TransportState);

/// Relies on snow::Builder::{new, local_private_key, remote_public_key,
/// build_initiator} and str::parse::<NoiseParams>: constructs an
/// initiating handshake session for the given pattern over the given
/// static keys.
#[verifier::external_body]
fn snow_build_initiator(
    pattern: &str,
    local_private: &[u8; 32],
    remote_public: &[u8; 32],
) -> (r: Result<snow::HandshakeState, snow::Error>) {
    let params = match pattern.parse() {
        Ok(p) => p,
        Err(e) => return Err(e),
    };
    snow::Builder::new(params)
        .local_private_key(local_private)?
        .remote_public_key(remote_public)?
        .build_initiator()
}

/// Relies on snow::Builder::{new, local_private_key, build_responder}
/// and str::parse::<NoiseParams>: constructs a responding handshake
/// session for the given pattern over the given static key.
#[verifier::external_body]
fn snow_build_responder(pattern: &str, local_private: &[u8; 32]) -> (r: Result<
    snow::HandshakeState,
    snow::Error,
>) {
    let params = match pattern.parse() {
        Ok(p) => p,
        Err(e) => return Err(e),
    };
    snow::Builder::new(params).local_private_key(local_private)?.build_responder()
}

/// Relies on snow::HandshakeState::write_message: on success the
/// produced message is no longer than the noise protocol's maximum of
/// 65535 bytes, as its documentation states.
#[verifier::external_body]
fn snow_hs_write(state: &mut snow::HandshakeState, payload: &[u8]) -> (r: Result<
    Vec<u8>,
    snow::Error,
>)
    ensures
        r matches Ok(v) ==> v@.len() <= 65535,
{
    let mut buf = vec![0u8; 65535];
    let n = state.write_message(payload, &mut buf)?;
    buf.truncate(n);
    Ok(buf)
}

/// Relies on snow::HandshakeState::read_message: decrypts one handshake
/// message, or fails if it is malformed or fails authentication.
#[verifier::external_body]
fn snow_hs_read(state: &mut snow::HandshakeState, message: &[u8]) -> (r: Result<
    Vec<u8>,
    snow::Error,
>) {
    let mut buf = vec![0u8; 65535];
    let n = state.read_message(message, &mut buf)?;
    buf.truncate(n);
    Ok(buf)
}

/// Relies on snow::HandshakeState::get_remote_static: returns the
/// peer's static key, if the pattern has revealed it.
#[verifier::external_body]
fn snow_hs_remote_static(state: &snow::HandshakeState) -> (r: Option<Vec<u8>>) {
    state.get_remote_static().map(|k| k.to_vec())
}

/// Relies on snow::HandshakeState::into_transport_mode: consumes the
/// handshake-mode session; fails if the exchange is not complete.
#[verifier::external_body]
fn snow_into_transport(state: snow::HandshakeState) -> (r: Result<
    snow::TransportState,
    snow::Error,
>) {
    state.into_transport_mode()
}

/// Relies on snow::TransportState::write_message: on success the
/// produced message is no longer than the noise protocol's maximum of
/// 65535 bytes, as its documentation states.
#[verifier::external_body]
fn snow_ts_write(state: &mut snow::TransportState, payload: &[u8]) -> (r: Result<
    Vec<u8>,
    snow::Error,
>)
    ensures
        r matches Ok(v) ==> v@.len() <= 65535,
{
    let mut buf = vec![0u8; 65535];
    let n = state.write_message(payload, &mut buf)?;
    buf.truncate(n);
    Ok(buf)
}

/// Relies on snow::TransportState::read_message: decrypts one transport
/// message, or fails if it is malformed or fails authentication.
#[verifier::external_body]
fn snow_ts_read(state: &mut snow::TransportState, message: &[u8]) -> (r: Result<
    Vec<u8>,
    snow::Error,
>) {
    let mut buf = vec![0u8; 65535];
    let n = state.read_message(message, &mut buf)?;
    buf.truncate(n);
    Ok(buf)
}

/// The noise pattern the secure channel runs.
pub const NOISE_PARAMS: &'static str = "Noise_XK_25519_ChaChaPoly_SHA256";

/// A handshake-mode session engine.
#[derive(Debug)]
pub struct NoiseWrapper {
    session: snow::HandshakeState,
}

impl NoiseWrapper {
    /// Builds the initiating session of a parameter set.  The expected
    /// remote key must already be bound, since the pattern
    /// authenticates the responder against it.
    pub fn initiator(params: &HandshakeParams) -> (r: Result<Self, NoiseError>)
        requires
            params.remote_key is Some,
    {
        let remote = match &params.remote_key {
            Some(k) => k,
            None => {
                proof {
                    assert(false);
                }
                return Err(NoiseError::Other(String::new()));
            },
        };
        match snow_build_initiator(NOISE_PARAMS, &params.secret_key.bytes, &remote.bytes) {
            Ok(session) => Ok(NoiseWrapper { session }),
            Err(e) => Err(NoiseError::from(e)),
        }
    }

    /// Builds the responding session of a parameter set.
    pub fn responder(params: &HandshakeParams) -> (r: Result<Self, NoiseError>) {
        match snow_build_responder(NOISE_PARAMS, &params.secret_key.bytes) {
            Ok(session) => Ok(NoiseWrapper { session }),
            Err(e) => Err(NoiseError::from(e)),
        }
    }

    /// Decrypts one handshake message, advancing the session.
    pub fn read_handshake_msg(&mut self, msg: &[u8]) -> (r: Result<Vec<u8>, NoiseError>)
        ensures
            r matches Err(e) ==> e matches NoiseError::Snow(_),
    {
        match snow_hs_read(&mut self.session, msg) {
            Ok(payload) => Ok(payload),
            Err(e) => Err(NoiseError::from(e)),
        }
    }

    /// Encrypts one handshake message, advancing the session.  On
    /// success the message is no longer than the noise protocol's
    /// maximum of 65535 bytes.
    pub fn write_handshake_msg(&mut self, msg: &[u8]) -> (r: Result<Vec<u8>, NoiseError>)
        ensures
            r matches Ok(v) ==> v@.len() <= 65535,
            r matches Err(e) ==> e matches NoiseError::Snow(_),
    {
        match snow_hs_write(&mut self.session, msg) {
            Ok(buf) => Ok(buf),
            Err(e) => Err(NoiseError::from(e)),
        }
    }

    /// The peer's revealed static key, if the exchange has revealed it.
    pub fn remote_static_key(&self) -> (r: Option<Vec<u8>>) {
        snow_hs_remote_static(&self.session)
    }

    /// Consumes the handshake-mode session and moves one-way into
    /// transport mode.  No handshake message can pass through the
    /// engine afterwards.
    pub fn into_transport_mode(self) -> (r: Result<TransportWrapper, NoiseError>)
        ensures
            r matches Err(e) ==> e matches NoiseError::Snow(_),
    {
        match snow_into_transport(self.session) {
            Ok(session) => Ok(TransportWrapper { session }),
            Err(e) => Err(NoiseError::from(e)),
        }
    }
}

/// A transport-mode session engine: encrypts and decrypts application
/// messages after the handshake has completed.
#[derive(Debug)]
pub struct TransportWrapper {
    session: snow::TransportState,
}

impl TransportWrapper {
    /// Encrypts one application message.  On success the message is no
    /// longer than the noise protocol's maximum of 65535 bytes.
    pub fn encrypt_msg(&mut self, msg: &[u8]) -> (r: Result<Vec<u8>, NoiseError>)
        ensures
            r matches Ok(v) ==> v@.len() <= 65535,
            r matches Err(e) ==> e matches NoiseError::Snow(_),
    {
        match snow_ts_write(&mut self.session, msg) {
            Ok(buf) => Ok(buf),
            Err(e) => Err(NoiseError::from(e)),
        }
    }

    /// Decrypts one application message.
    pub fn decrypt_msg(&mut self, msg: &[u8]) -> (r: Result<Vec<u8>, NoiseError>)
        ensures
            r matches Err(e) ==> e matches NoiseError::Snow(_),
    {
        match snow_ts_read(&mut self.session, msg) {
            Ok(payload) => Ok(payload),
            Err(e) => Err(NoiseError::from(e)),
        }
    }
}

} // verus!
