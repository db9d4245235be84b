//! The secure channel handshake.
//!
//! A connection attempt builds a parameter set, constructs an attempt in
//! the initiating or responding role, and drives a three-message
//! exchange.  After the schedule completes, the peer's revealed static
//! key is checked against the connect list, the session moves one-way
//! into transport mode, and the caller receives an encrypted framed
//! channel together with the raw bytes of the peer's announcement, for
//! higher-layer validation.
//!
//! Every step that waits for bytes is a suspension point: a step that
//! finds too few arrived bytes hands the attempt back unchanged, so an
//! external timeout can abandon it at any step, and no channel exists
//! until the exchange has completed and admission has passed.

use vstd::prelude::*;

use crate::codec::MessagesCodec;
use crate::connect_list::{allowed_spec, SharedConnectList};
use crate::crypto;
use crate::crypto::ed_public_decodes;
use crate::error::{HandshakeError, HandshakeErrorKind, NoiseError};
use crate::frame::{frame_seq, parse_frame, FrameParse, HandshakeRawMessage, HEADER_LENGTH};
use crate::stream::BufferStream;
use crate::wrapper::NoiseWrapper;
use crate::x25519;
use crate::x25519::{x25519_public_of, x25519_secret_of};

verus! {

/// Parameters needed to establish a secured connection, immutable for
/// the life of one attempt except for the late-bound expected remote
/// key.  Secret material is deliberately kept out of any debug output.
pub struct HandshakeParams {
    /// The local static key-agreement public key, converted once from
    /// the identity key.
    pub public_key: x25519::PublicKey,
    /// The local static key-agreement secret key, converted once from
    /// the identity key.
    pub secret_key: x25519::SecretKey,
    /// The key the dialing side expects to reach, bound exactly once
    /// before the handshake is driven.
    pub remote_key: Option<x25519::PublicKey>,
    /// The snapshot of currently trusted peers.
    pub connect_list: SharedConnectList,
    /// The signed, serialized announcement to hand to the peer.
    pub connect: Vec<u8>,
    /// The maximum length a frame may declare; positive.
    pub max_message_len: u32,
}

impl HandshakeParams {
    /// The maximum length a frame may declare.
    pub open spec fn spec_max_message_len(&self) -> u32 {
        self.max_message_len
    }

    /// The parameter set is consistent: the maximum is positive.
    pub open spec fn wf(&self) -> bool {
        self.spec_max_message_len() >= 1
    }

    /// Converts the identity keypair to the key-agreement curve and
    /// assembles a parameter set.  Returns `None` exactly when the
    /// public key is not a canonically encoded point; the conversion is
    /// deterministic, done once, and never repeated mid-attempt.
    pub fn new(
        public_key: &crypto::PublicKey,
        secret_key: &crypto::SecretKey,
        connect_list: SharedConnectList,
        connect: Vec<u8>,
        max_message_len: u32,
    ) -> (r: Option<Self>)
        requires
            max_message_len >= 1,
        ensures
            r is Some <==> ed_public_decodes(public_key@),
            r matches Some(p) ==> p.wf() && p.public_key@ == x25519_public_of(public_key@)
                && p.secret_key@ == x25519_secret_of(secret_key@) && p.remote_key is None
                && p.connect_list@ == connect_list@ && p.connect@ == connect@
                && p.spec_max_message_len() == max_message_len,
    {
        match x25519::into_x25519_keypair(public_key, secret_key) {
            Some((public_key, secret_key)) => Some(
                HandshakeParams {
                    public_key,
                    secret_key,
                    remote_key: None,
                    connect_list,
                    connect,
                    max_message_len,
                },
            ),
            None => None,
        }
    }

    /// Binds the key the dialing side expects to reach, converting it
    /// to the key-agreement curve.  Returns `false`, leaving the set
    /// unchanged, exactly when the key is not a canonically encoded
    /// point.
    pub fn set_remote_key(&mut self, remote_key: &crypto::PublicKey) -> (r: bool)
        ensures
            r <==> ed_public_decodes(remote_key@),
            r ==> (final(self).remote_key matches Some(k) && k@ == x25519_public_of(remote_key@)),
            !r ==> final(self).remote_key == old(self).remote_key,
            final(self).public_key == old(self).public_key,
            final(self).secret_key == old(self).secret_key,
            final(self).connect_list@ == old(self).connect_list@,
            final(self).connect@ == old(self).connect@,
            final(self).spec_max_message_len() == old(self).spec_max_message_len(),
    {
        match x25519::into_x25519_public_key(remote_key) {
            Some(key) => {
                self.remote_key = Some(key);
                true
            },
            None => false,
        }
    }

    /// The maximum length a frame may declare.
    pub fn max_message_len(&self) -> (r: u32)
        ensures
            r == self.spec_max_message_len(),
    {
        self.max_message_len
    }
}

/// Which side of the exchange an attempt plays.  The role is fixed at
/// construction and never changes.
#[derive(Clone, Copy, Debug, PartialEq, Eq, Structural)]
pub enum HandshakeRole {
    /// The dialing side: sends the first message.
    Initiator,
    /// The accepting side: waits for the first message.
    Responder,
}

/// How far the three-message schedule has progressed.  Steps execute
/// strictly in schedule order; there is no parallelism within one
/// attempt.
#[derive(Clone, Copy, Debug, PartialEq, Eq, Structural)]
pub enum HandshakePhase {
    /// Initiator: about to send message one.
    SendMsg1,
    /// Initiator: waiting for message two.
    AwaitMsg2,
    /// Responder: waiting for message one.
    AwaitMsg1,
    /// Responder: waiting for message three.
    AwaitMsg3,
}

/// What one drive of an attempt produced.
#[derive(Debug)]
pub enum HandshakeOutcome {
    /// Too few bytes have arrived; the attempt is handed back to be
    /// driven again (or dropped, which cancels it: no channel exists).
    Pending(NoiseHandshake),
    /// The exchange finished and the peer was admitted: the encrypted
    /// channel, and the peer's announcement bytes for higher-layer
    /// validation.
    Complete(MessagesCodec, Vec<u8>),
}

/// A capability that transforms a raw byte stream into an
/// authenticated, encrypted channel: exactly two operations, one per
/// role, each taking ownership of the attempt and producing either the
/// finalized channel plus the peer's announcement, a pending attempt to
/// drive again, or a failure.  Callers written against this trait can
/// substitute another handshake protocol for the noise one.
///
/// The trait operations carry no preconditions: an implementation
/// checks its own state and reports a misuse as a failure.
pub trait Handshake: Sized {
    /// Drives the responding role as far as the arrived bytes allow.
    fn listen(self, stream: &mut BufferStream) -> Result<HandshakeOutcome, HandshakeError>;

    /// Drives the initiating role as far as the arrived bytes allow.
    fn send(self, stream: &mut BufferStream) -> Result<HandshakeOutcome, HandshakeError>;
}

/// One live handshake attempt: the session engine, the peer's address
/// for diagnostics, and copies of the per-attempt configuration.
/// Created per connection attempt and never reused.
#[derive(Debug)]
pub struct NoiseHandshake {
    noise: NoiseWrapper,
    peer_address: String,
    max_message_len: u32,
    connect_list: SharedConnectList,
    connect: Vec<u8>,
    phase: HandshakePhase,
}

/// Decides admission of a revealed static key against a connect-list
/// snapshot: succeeds exactly when some entry's identity key converts
/// to the revealed key, and otherwise reports the authorization error,
/// annotated with the peer.
pub fn authorize_peer(
    connect_list: &SharedConnectList,
    remote_static_key: &x25519::PublicKey,
    peer_address: &String,
) -> (r: Result<(), HandshakeError>)
    ensures
        r is Ok <==> allowed_spec(connect_list@, remote_static_key@),
        r matches Err(e) ==> e.kind matches HandshakeErrorKind::Unauthorized
            && e.peer@ == peer_address@,
{
    if connect_list.is_allowed(remote_static_key) {
        Ok(())
    } else {
        Err(HandshakeError::new(peer_address.clone(), HandshakeErrorKind::Unauthorized))
    }
}

impl NoiseHandshake {
    /// The maximum length a frame may declare.
    pub closed spec fn spec_max_message_len(&self) -> u32 {
        self.max_message_len
    }

    /// The peer's address, as carried for diagnostics.
    pub closed spec fn spec_peer_address(&self) -> Seq<char> {
        self.peer_address@
    }

    /// The connect-list snapshot the attempt will admit against.
    pub closed spec fn spec_connect_list(&self) -> Seq<crate::connect_list::ConnectInfoView> {
        self.connect_list@
    }

    /// The local announcement the attempt delivers.
    pub closed spec fn spec_connect(&self) -> Seq<u8> {
        self.connect@
    }

    /// Where the attempt stands in the schedule.
    pub closed spec fn spec_phase(&self) -> HandshakePhase {
        self.phase
    }

    /// The role the phase belongs to.
    pub open spec fn spec_role(&self) -> HandshakeRole {
        match self.spec_phase() {
            HandshakePhase::SendMsg1 => HandshakeRole::Initiator,
            HandshakePhase::AwaitMsg2 => HandshakeRole::Initiator,
            HandshakePhase::AwaitMsg1 => HandshakeRole::Responder,
            HandshakePhase::AwaitMsg3 => HandshakeRole::Responder,
        }
    }

    /// The attempt is consistent: the maximum is positive.
    pub open spec fn wf(&self) -> bool {
        self.spec_max_message_len() >= 1
    }

    /// Two attempt values carry the same per-attempt configuration.
    pub open spec fn same_attempt(a: &NoiseHandshake, b: &NoiseHandshake) -> bool {
        a.spec_max_message_len() == b.spec_max_message_len()
            && a.spec_peer_address() == b.spec_peer_address()
            && a.spec_connect_list() == b.spec_connect_list()
            && a.spec_connect() == b.spec_connect()
    }

    /// Builds an attempt in the initiating role from a parameter set
    /// whose expected remote key is bound.
    pub fn initiator(params: &HandshakeParams, peer_address: &String) -> (r: Result<
        Self,
        NoiseError,
    >)
        requires
            params.wf(),
            params.remote_key is Some,
        ensures
            r matches Ok(h) ==> h.wf() && h.spec_role() == HandshakeRole::Initiator
                && h.spec_phase() == HandshakePhase::SendMsg1
                && h.spec_max_message_len() == params.spec_max_message_len()
                && h.spec_peer_address() == peer_address@
                && h.spec_connect_list() == params.connect_list@
                && h.spec_connect() == params.connect@,
    {
        let noise = match NoiseWrapper::initiator(params) {
            Ok(n) => n,
            Err(e) => {
                return Err(e);
            },
        };
        Ok(
            NoiseHandshake {
                noise,
                peer_address: peer_address.clone(),
                max_message_len: params.max_message_len(),
                connect_list: params.connect_list.duplicate(),
                connect: crypto::copy_bytes(&params.connect),
                phase: HandshakePhase::SendMsg1,
            },
        )
    }

    /// Builds an attempt in the responding role, for a freshly accepted
    /// inbound stream.
    pub fn responder(params: &HandshakeParams, peer_address: &String) -> (r: Result<
        Self,
        NoiseError,
    >)
        requires
            params.wf(),
        ensures
            r matches Ok(h) ==> h.wf() && h.spec_role() == HandshakeRole::Responder
                && h.spec_phase() == HandshakePhase::AwaitMsg1
                && h.spec_max_message_len() == params.spec_max_message_len()
                && h.spec_peer_address() == peer_address@
                && h.spec_connect_list() == params.connect_list@
                && h.spec_connect() == params.connect@,
    {
        let noise = match NoiseWrapper::responder(params) {
            Ok(n) => n,
            Err(e) => {
                return Err(e);
            },
        };
        Ok(
            NoiseHandshake {
                noise,
                peer_address: peer_address.clone(),
                max_message_len: params.max_message_len(),
                connect_list: params.connect_list.duplicate(),
                connect: crypto::copy_bytes(&params.connect),
                phase: HandshakePhase::AwaitMsg1,
            },
        )
    }

    /// Reads one framed handshake message from the arrived bytes and
    /// hands it to the session engine.  The declared length is checked
    /// against the maximum before the body is read; an incomplete frame
    /// returns `Ok(None)` and consumes nothing.
    pub fn read_handshake_msg(&mut self, stream: &mut BufferStream) -> (r: Result<
        Option<Vec<u8>>,
        NoiseError,
    >)
        requires
            old(self).wf(),
            old(stream).wf(),
        ensures
            final(self).wf(),
            Self::same_attempt(old(self), final(self)),
            final(self).spec_phase() == old(self).spec_phase(),
            final(stream).wf(),
            final(stream).input@ == old(stream).input@,
            final(stream).output@ == old(stream).output@,
            match parse_frame(
                old(stream).input@,
                old(stream).read_pos as int,
                old(self).spec_max_message_len(),
            ) {
                FrameParse::Incomplete => r matches Ok(p) && p is None
                    && final(stream).read_pos == old(stream).read_pos,
                FrameParse::TooLong(n) => r matches Err(e) && e matches
                    NoiseError::WrongMessageLength(m) && m == n
                    && final(stream).read_pos == old(stream).read_pos,
                FrameParse::Complete(_, next) => final(stream).read_pos == next
                    && (r matches Ok(p) ==> p is Some)
                    && (r matches Err(e) ==> e matches NoiseError::Snow(_)),
            },
    {
        let pr = HandshakeRawMessage::read(&stream.input, stream.read_pos, self.max_message_len);
        match pr {
            Err(e) => Err(e),
            Ok(None) => Ok(None),
            Ok(Some((raw, next))) => {
                stream.read_pos = next;
                match self.noise.read_handshake_msg(raw.0.as_slice()) {
                    Ok(payload) => Ok(Some(payload)),
                    Err(e) => Err(e),
                }
            },
        }
    }

    /// Asks the session engine to produce the next handshake message
    /// carrying `msg` as payload, and appends its frame to the outgoing
    /// bytes.  An encrypted body longer than the maximum is rejected
    /// and nothing is written.
    pub fn write_handshake_msg(&mut self, stream: &mut BufferStream, msg: &[u8]) -> (r: Result<
        (),
        NoiseError,
    >)
        requires
            old(self).wf(),
            old(stream).wf(),
            old(stream).output@.len() + HEADER_LENGTH + old(self).spec_max_message_len()
                <= usize::MAX,
        ensures
            final(self).wf(),
            Self::same_attempt(old(self), final(self)),
            final(self).spec_phase() == old(self).spec_phase(),
            final(stream).wf(),
            final(stream).input@ == old(stream).input@,
            final(stream).read_pos == old(stream).read_pos,
            r matches Ok(()) ==> exists|p: Seq<u8>|
                p.len() <= old(self).spec_max_message_len()
                && final(stream).output@ == old(stream).output@ + frame_seq(p),
            r is Err ==> final(stream).output@ == old(stream).output@,
            r matches Err(e) ==> (e matches NoiseError::Snow(_) || e matches
                NoiseError::WrongMessageLength(_)),
            r matches Err(e) ==> (e matches NoiseError::WrongMessageLength(n)
                ==> n > old(self).spec_max_message_len()),
    {
        let buf = match self.noise.write_handshake_msg(msg) {
            Ok(b) => b,
            Err(e) => {
                return Err(e);
            },
        };
        if buf.len() > self.max_message_len as usize {
            return Err(NoiseError::WrongMessageLength(buf.len()));
        }
        let raw = HandshakeRawMessage(buf);
        raw.write(&mut stream.output);
        proof {
            assert(raw.0@.len() <= old(self).spec_max_message_len());
        }
        Ok(())
    }

    /// Decides admission of a revealed static key against this
    /// attempt's connect-list snapshot.
    pub fn is_peer_allowed(&self, remote_static_key: &x25519::PublicKey) -> (r: bool)
        ensures
            r == allowed_spec(self.spec_connect_list(), remote_static_key@),
    {
        self.connect_list.is_allowed(remote_static_key)
    }

    /// Finalizes a structurally complete exchange: queries the revealed
    /// static key, admits it against the connect list, moves the
    /// session one-way into transport mode and binds the codec to the
    /// negotiated maximum.  `message` is the peer's announcement
    /// captured during the schedule, handed back untouched.
    ///
    /// A missing or malformed revealed key after a complete exchange is
    /// a protocol-invariant violation, reported loudly as a defect; a
    /// peer outside the list is the authorization error, and no channel
    /// is produced.
    pub fn finalize(self, message: Vec<u8>) -> (r: Result<
        (MessagesCodec, Vec<u8>),
        HandshakeError,
    >)
        requires
            self.wf(),
        ensures
            r matches Ok(p) ==> p.0.wf()
                && p.0.spec_max_message_len() == self.spec_max_message_len() && p.1@ == message@,
            r matches Ok(p) ==> exists|k: Seq<u8>| #[trigger]
                allowed_spec(self.spec_connect_list(), k),
            r matches Err(e) ==> e.peer@ == self.spec_peer_address(),
            r matches Err(e) ==> (e.kind matches HandshakeErrorKind::Unauthorized || e.kind
                matches HandshakeErrorKind::InvariantViolation(_) || e.kind matches
                HandshakeErrorKind::Noise(_)),
            r matches Err(e) ==> (e.kind matches HandshakeErrorKind::Noise(ne) ==> ne matches
                NoiseError::Snow(_)),
    {
        let peer = self.peer_address.clone();
        let remote_bytes = match self.noise.remote_static_key() {
            Some(v) => v,
            None => {
                return Err(
                    HandshakeError::new(
                        peer,
                        HandshakeErrorKind::InvariantViolation(
                            String::from_str("remote static key is not present"),
                        ),
                    ),
                );
            },
        };
        let remote_arr = match crypto::bytes32_from_vec(&remote_bytes) {
            Some(a) => a,
            None => {
                return Err(
                    HandshakeError::new(
                        peer,
                        HandshakeErrorKind::InvariantViolation(
                            String::from_str("remote static key is not a valid curve key"),
                        ),
                    ),
                );
            },
        };
        let remote_static_key = x25519::PublicKey::from_bytes(remote_arr);
        match authorize_peer(&self.connect_list, &remote_static_key, &peer) {
            Ok(()) => {
                proof {
                    assert(allowed_spec(self.spec_connect_list(), remote_static_key@));
                }
            },
            Err(e) => {
                return Err(e);
            },
        }
        let transport = match self.noise.into_transport_mode() {
            Ok(t) => t,
            Err(e) => {
                return Err(HandshakeError::new(peer, HandshakeErrorKind::Noise(e)));
            },
        };
        let codec = MessagesCodec::new(self.max_message_len, transport);
        Ok((codec, message))
    }

    /// Drives the responding role as far as the arrived bytes allow:
    /// receive message one, send message two carrying the local
    /// announcement, receive message three carrying the peer's
    /// announcement, then finalize.  A step short of bytes hands the
    /// attempt back pending; every failure is annotated with the peer's
    /// address.
    pub fn listen(self, stream: &mut BufferStream) -> (r: Result<HandshakeOutcome, HandshakeError>)
        requires
            self.wf(),
            self.spec_role() == HandshakeRole::Responder,
            old(stream).wf(),
            old(stream).output@.len() + HEADER_LENGTH + self.spec_max_message_len() <= usize::MAX,
        ensures
            final(stream).wf(),
            final(stream).input@ == old(stream).input@,
            r matches Ok(o) ==> (o matches HandshakeOutcome::Pending(h) ==> h.wf()
                && h.spec_role() == HandshakeRole::Responder && Self::same_attempt(&self, &h)),
            r matches Ok(o) ==> (o matches HandshakeOutcome::Complete(ch, _) ==> ch.wf()
                && ch.spec_max_message_len() == self.spec_max_message_len()),
            r matches Ok(o) ==> (o matches HandshakeOutcome::Complete(ch, m) ==> exists|k: Seq<u8>|
                #[trigger] allowed_spec(self.spec_connect_list(), k)),
            r matches Err(e) ==> e.peer@ == self.spec_peer_address(),
            r matches Err(e) ==> (e.kind matches HandshakeErrorKind::Noise(ne) ==> (ne matches
                NoiseError::WrongMessageLength(n) ==> n > self.spec_max_message_len())),
            final(stream).output@ == old(stream).output@ || exists|p: Seq<u8>|
                p.len() <= self.spec_max_message_len()
                && final(stream).output@ == old(stream).output@ + frame_seq(p),
            r matches Ok(o) ==> (o matches HandshakeOutcome::Pending(h) ==> (h.spec_phase()
                == HandshakePhase::AwaitMsg1 || h.spec_phase() == HandshakePhase::AwaitMsg3)),
            self.spec_phase() == HandshakePhase::AwaitMsg1 ==> match parse_frame(
                old(stream).input@,
                old(stream).read_pos as int,
                self.spec_max_message_len(),
            ) {
                FrameParse::Incomplete => r matches Ok(o) && o matches
                    HandshakeOutcome::Pending(h) && h.spec_phase() == HandshakePhase::AwaitMsg1
                    && final(stream).read_pos == old(stream).read_pos
                    && final(stream).output@ == old(stream).output@,
                FrameParse::TooLong(n) => r matches Err(e) && e.kind matches
                    HandshakeErrorKind::Noise(ne) && ne matches NoiseError::WrongMessageLength(m)
                    && m == n && final(stream).read_pos == old(stream).read_pos
                    && final(stream).output@ == old(stream).output@,
                FrameParse::Complete(_, _) => r matches Ok(o) ==> ((o matches
                    HandshakeOutcome::Pending(h) ==> h.spec_phase() == HandshakePhase::AwaitMsg3)
                    && exists|p: Seq<u8>|
                        p.len() <= self.spec_max_message_len()
                        && final(stream).output@ == old(stream).output@ + frame_seq(p)),
            },
            self.spec_phase() == HandshakePhase::AwaitMsg3 ==> final(stream).output@ == old(
                stream,
            ).output@,
            self.spec_phase() == HandshakePhase::AwaitMsg3 ==> match parse_frame(
                old(stream).input@,
                old(stream).read_pos as int,
                self.spec_max_message_len(),
            ) {
                FrameParse::Incomplete => r matches Ok(o) && o matches
                    HandshakeOutcome::Pending(h) && h.spec_phase() == HandshakePhase::AwaitMsg3
                    && final(stream).read_pos == old(stream).read_pos,
                FrameParse::TooLong(n) => r matches Err(e) && e.kind matches
                    HandshakeErrorKind::Noise(ne) && ne matches NoiseError::WrongMessageLength(m)
                    && m == n && final(stream).read_pos == old(stream).read_pos,
                FrameParse::Complete(_, _) => r matches Ok(o) ==> o matches
                    HandshakeOutcome::Complete(_, _),
            },
    {
        let mut this = self;
        match this.phase {
            HandshakePhase::AwaitMsg1 => {
                match this.read_handshake_msg(stream) {
                    Err(e) => Err(
                        HandshakeError::new(this.peer_address, HandshakeErrorKind::Noise(e)),
                    ),
                    Ok(None) => Ok(HandshakeOutcome::Pending(this)),
                    Ok(Some(_)) => {
                        let announcement = crypto::copy_bytes(&this.connect);
                        match this.write_handshake_msg(stream, announcement.as_slice()) {
                            Err(e) => Err(
                                HandshakeError::new(
                                    this.peer_address,
                                    HandshakeErrorKind::Noise(e),
                                ),
                            ),
                            Ok(()) => {
                                this.phase = HandshakePhase::AwaitMsg3;
                                match this.read_handshake_msg(stream) {
                                    Err(e) => Err(
                                        HandshakeError::new(
                                            this.peer_address,
                                            HandshakeErrorKind::Noise(e),
                                        ),
                                    ),
                                    Ok(None) => Ok(HandshakeOutcome::Pending(this)),
                                    Ok(Some(message)) => {
                                        match this.finalize(message) {
                                            Ok((codec, message)) => Ok(
                                                HandshakeOutcome::Complete(codec, message),
                                            ),
                                            Err(e) => Err(e),
                                        }
                                    },
                                }
                            },
                        }
                    },
                }
            },
            HandshakePhase::AwaitMsg3 => {
                match this.read_handshake_msg(stream) {
                    Err(e) => Err(
                        HandshakeError::new(this.peer_address, HandshakeErrorKind::Noise(e)),
                    ),
                    Ok(None) => Ok(HandshakeOutcome::Pending(this)),
                    Ok(Some(message)) => {
                        match this.finalize(message) {
                            Ok((codec, message)) => Ok(HandshakeOutcome::Complete(codec, message)),
                            Err(e) => Err(e),
                        }
                    },
                }
            },
            HandshakePhase::SendMsg1 => {
                proof {
                    assert(false);
                }
                Err(
                    HandshakeError::new(
                        this.peer_address,
                        HandshakeErrorKind::InvariantViolation(
                            String::from_str("the attempt's phase does not belong to its role"),
                        ),
                    ),
                )
            },
            HandshakePhase::AwaitMsg2 => {
                proof {
                    assert(false);
                }
                Err(
                    HandshakeError::new(
                        this.peer_address,
                        HandshakeErrorKind::InvariantViolation(
                            String::from_str("the attempt's phase does not belong to its role"),
                        ),
                    ),
                )
            },
        }
    }

    /// Drives the initiating role as far as the arrived bytes allow:
    /// send message one with an empty payload, receive message two
    /// carrying the peer's announcement (retained), send message three
    /// carrying the local announcement, then finalize, returning the
    /// retained announcement.  A step short of bytes hands the attempt
    /// back pending; every failure is annotated with the peer's
    /// address.
    pub fn send(self, stream: &mut BufferStream) -> (r: Result<HandshakeOutcome, HandshakeError>)
        requires
            self.wf(),
            self.spec_role() == HandshakeRole::Initiator,
            old(stream).wf(),
            old(stream).output@.len() + HEADER_LENGTH + self.spec_max_message_len() <= usize::MAX,
        ensures
            final(stream).wf(),
            final(stream).input@ == old(stream).input@,
            r matches Ok(o) ==> (o matches HandshakeOutcome::Pending(h) ==> h.wf()
                && h.spec_role() == HandshakeRole::Initiator && Self::same_attempt(&self, &h)),
            r matches Ok(o) ==> (o matches HandshakeOutcome::Complete(ch, _) ==> ch.wf()
                && ch.spec_max_message_len() == self.spec_max_message_len()),
            r matches Ok(o) ==> (o matches HandshakeOutcome::Complete(ch, m) ==> exists|k: Seq<u8>|
                #[trigger] allowed_spec(self.spec_connect_list(), k)),
            r matches Err(e) ==> e.peer@ == self.spec_peer_address(),
            r matches Err(e) ==> (e.kind matches HandshakeErrorKind::Noise(ne) ==> (ne matches
                NoiseError::WrongMessageLength(n) ==> n > self.spec_max_message_len())),
            final(stream).output@ == old(stream).output@ || exists|p: Seq<u8>|
                p.len() <= self.spec_max_message_len()
                && final(stream).output@ == old(stream).output@ + frame_seq(p),
            r matches Ok(o) ==> (o matches HandshakeOutcome::Pending(h) ==> h.spec_phase()
                == HandshakePhase::AwaitMsg2),
            self.spec_phase() == HandshakePhase::SendMsg1 ==> final(stream).read_pos == old(
                stream,
            ).read_pos,
            self.spec_phase() == HandshakePhase::SendMsg1 ==> (r matches Ok(o) ==> (o matches
                HandshakeOutcome::Pending(h) && exists|p: Seq<u8>|
                    p.len() <= self.spec_max_message_len()
                    && final(stream).output@ == old(stream).output@ + frame_seq(p))),
            self.spec_phase() == HandshakePhase::AwaitMsg2 ==> match parse_frame(
                old(stream).input@,
                old(stream).read_pos as int,
                self.spec_max_message_len(),
            ) {
                FrameParse::Incomplete => r matches Ok(o) && o matches
                    HandshakeOutcome::Pending(h) && h.spec_phase() == HandshakePhase::AwaitMsg2
                    && final(stream).read_pos == old(stream).read_pos
                    && final(stream).output@ == old(stream).output@,
                FrameParse::TooLong(n) => r matches Err(e) && e.kind matches
                    HandshakeErrorKind::Noise(ne) && ne matches NoiseError::WrongMessageLength(m)
                    && m == n && final(stream).read_pos == old(stream).read_pos
                    && final(stream).output@ == old(stream).output@,
                FrameParse::Complete(_, _) => r matches Ok(o) ==> (o matches
                    HandshakeOutcome::Complete(_, _) && exists|p: Seq<u8>|
                        p.len() <= self.spec_max_message_len()
                        && final(stream).output@ == old(stream).output@ + frame_seq(p)),
            },
    {
        let mut this = self;
        match this.phase {
            HandshakePhase::SendMsg1 => {
                let empty: Vec<u8> = Vec::new();
                match this.write_handshake_msg(stream, empty.as_slice()) {
                    Err(e) => Err(
                        HandshakeError::new(this.peer_address, HandshakeErrorKind::Noise(e)),
                    ),
                    Ok(()) => {
                        this.phase = HandshakePhase::AwaitMsg2;
                        Ok(HandshakeOutcome::Pending(this))
                    },
                }
            },
            HandshakePhase::AwaitMsg2 => {
                match this.read_handshake_msg(stream) {
                    Err(e) => Err(
                        HandshakeError::new(this.peer_address, HandshakeErrorKind::Noise(e)),
                    ),
                    Ok(None) => Ok(HandshakeOutcome::Pending(this)),
                    Ok(Some(message)) => {
                        let announcement = crypto::copy_bytes(&this.connect);
                        match this.write_handshake_msg(stream, announcement.as_slice()) {
                            Err(e) => Err(
                                HandshakeError::new(
                                    this.peer_address,
                                    HandshakeErrorKind::Noise(e),
                                ),
                            ),
                            Ok(()) => {
                                match this.finalize(message) {
                                    Ok((codec, message)) => Ok(
                                        HandshakeOutcome::Complete(codec, message),
                                    ),
                                    Err(e) => Err(e),
                                }
                            },
                        }
                    },
                }
            },
            HandshakePhase::AwaitMsg1 => {
                proof {
                    assert(false);
                }
                Err(
                    HandshakeError::new(
                        this.peer_address,
                        HandshakeErrorKind::InvariantViolation(
                            String::from_str("the attempt's phase does not belong to its role"),
                        ),
                    ),
                )
            },
            HandshakePhase::AwaitMsg3 => {
                proof {
                    assert(false);
                }
                Err(
                    HandshakeError::new(
                        this.peer_address,
                        HandshakeErrorKind::InvariantViolation(
                            String::from_str("the attempt's phase does not belong to its role"),
                        ),
                    ),
                )
            },
        }
    }
}

impl NoiseHandshake {
    /// Tests the drive preconditions at run time, for callers that
    /// reach the attempt through the contract-free `Handshake` trait.
    fn check_drive_preconditions(&self, stream: &BufferStream, want: HandshakeRole) -> (r: bool)
        ensures
            r ==> self.wf() && self.spec_role() == want && stream.wf()
                && stream.output@.len() + HEADER_LENGTH + self.spec_max_message_len()
                <= usize::MAX,
    {
        if self.max_message_len < 1 {
            return false;
        }
        let role_matches = match (self.phase, want) {
            (HandshakePhase::AwaitMsg1, HandshakeRole::Responder) => true,
            (HandshakePhase::AwaitMsg3, HandshakeRole::Responder) => true,
            (HandshakePhase::SendMsg1, HandshakeRole::Initiator) => true,
            (HandshakePhase::AwaitMsg2, HandshakeRole::Initiator) => true,
            _ => false,
        };
        if !role_matches {
            return false;
        }
        if stream.read_pos > stream.input.len() {
            return false;
        }
        let max = self.max_message_len as usize;
        if usize::MAX - HEADER_LENGTH < max {
            return false;
        }
        if stream.output.len() > usize::MAX - HEADER_LENGTH - max {
            return false;
        }
        true
    }
}

impl Handshake for NoiseHandshake {
    /// Checks the attempt's state at run time, then drives the
    /// responding role exactly as the inherent operation does.
    fn listen(self, stream: &mut BufferStream) -> Result<HandshakeOutcome, HandshakeError> {
        if !self.check_drive_preconditions(stream, HandshakeRole::Responder) {
            return Err(
                HandshakeError::new(
                    self.peer_address,
                    HandshakeErrorKind::InvariantViolation(
                        String::from_str("the attempt cannot respond in this state"),
                    ),
                ),
            );
        }
        self.listen(stream)
    }

    /// Checks the attempt's state at run time, then drives the
    /// initiating role exactly as the inherent operation does.
    fn send(self, stream: &mut BufferStream) -> Result<HandshakeOutcome, HandshakeError> {
        if !self.check_drive_preconditions(stream, HandshakeRole::Initiator) {
            return Err(
                HandshakeError::new(
                    self.peer_address,
                    HandshakeErrorKind::InvariantViolation(
                        String::from_str("the attempt cannot initiate in this state"),
                    ),
                ),
            );
        }
        self.send(stream)
    }
}

} // verus!
