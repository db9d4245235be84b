//! The encrypted message codec.
//!
//! After a successful handshake the raw stream carries length-prefixed
//! encrypted application messages.  The codec binds the transport-mode
//! session to the negotiated maximum message length: every frame, in
//! either direction, longer than the maximum is rejected.

use vstd::prelude::*;

use crate::error::NoiseError;
use crate::frame::{parse_frame, FrameParse, HandshakeRawMessage, HEADER_LENGTH};
use crate::stream::BufferStream;
use crate::wrapper::TransportWrapper;

verus! {

/// A message-oriented encrypted channel over a byte stream.
#[derive(Debug)]
pub struct MessagesCodec {
    max_message_len: u32,
    session: TransportWrapper,
}

impl MessagesCodec {
    /// The maximum length a frame may declare.
    pub closed spec fn spec_max_message_len(&self) -> u32 {
        self.max_message_len
    }

    /// The channel is consistent: the negotiated maximum is positive.
    pub open spec fn wf(&self) -> bool {
        self.spec_max_message_len() >= 1
    }

    /// Binds a transport-mode session to a maximum message length.
    pub fn new(max_message_len: u32, session: TransportWrapper) -> (r: Self)
        requires
            max_message_len >= 1,
        ensures
            r.spec_max_message_len() == max_message_len,
    {
        MessagesCodec { max_message_len, session }
    }

    /// The negotiated maximum message length.
    pub fn max_message_len(&self) -> (r: u32)
        ensures
            r == self.spec_max_message_len(),
    {
        self.max_message_len
    }

    /// Encrypts one application message and appends its frame to the
    /// outgoing bytes.  An encrypted body longer than the maximum is
    /// rejected and nothing is written.
    pub fn encode(&mut self, msg: &[u8], stream: &mut BufferStream) -> (r: Result<(), NoiseError>)
        requires
            old(self).wf(),
            old(stream).wf(),
            old(stream).output@.len() + HEADER_LENGTH + old(self).spec_max_message_len()
                <= usize::MAX,
        ensures
            final(self).wf(),
            final(self).spec_max_message_len() == old(self).spec_max_message_len(),
            final(stream).wf(),
            final(stream).input@ == old(stream).input@,
            final(stream).read_pos == old(stream).read_pos,
            r matches Ok(()) ==> exists|p: Seq<u8>|
                p.len() <= old(self).spec_max_message_len()
                && final(stream).output@ == old(stream).output@ + crate::frame::frame_seq(p),
            r is Err ==> final(stream).output@ == old(stream).output@,
            r matches Err(e) ==> (e matches NoiseError::Snow(_) || e matches
                NoiseError::WrongMessageLength(_)),
            r matches Err(e) ==> (e matches NoiseError::WrongMessageLength(n)
                ==> n > old(self).spec_max_message_len()),
    {
        let buf = match self.session.encrypt_msg(msg) {
            Ok(b) => b,
            Err(e) => {
                return Err(e);
            },
        };
        if buf.len() > self.max_message_len as usize {
            return Err(NoiseError::WrongMessageLength(buf.len()));
        }
        let raw = HandshakeRawMessage(buf);
        raw.write(&mut stream.output);
        proof {
            assert(raw.0@.len() <= old(self).spec_max_message_len());
        }
        Ok(())
    }

    /// Reads one frame of arrived bytes and decrypts it.  A declared
    /// length above the maximum is rejected before its body is looked
    /// at; too few arrived bytes leave the stream untouched.
    pub fn decode(&mut self, stream: &mut BufferStream) -> (r: Result<Option<Vec<u8>>, NoiseError>)
        requires
            old(self).wf(),
            old(stream).wf(),
        ensures
            final(self).wf(),
            final(self).spec_max_message_len() == old(self).spec_max_message_len(),
            final(stream).wf(),
            final(stream).input@ == old(stream).input@,
            final(stream).output@ == old(stream).output@,
            match parse_frame(
                old(stream).input@,
                old(stream).read_pos as int,
                old(self).spec_max_message_len(),
            ) {
                FrameParse::Incomplete => r matches Ok(p) && p is None
                    && final(stream).read_pos == old(stream).read_pos,
                FrameParse::TooLong(n) => r matches Err(e) && e matches
                    NoiseError::WrongMessageLength(m) && m == n
                    && final(stream).read_pos == old(stream).read_pos,
                FrameParse::Complete(_, next) => final(stream).read_pos == next
                    && (r matches Ok(p) ==> p is Some)
                    && (r matches Err(e) ==> e matches NoiseError::Snow(_)),
            },
    {
        let pr = HandshakeRawMessage::read(&stream.input, stream.read_pos, self.max_message_len);
        match pr {
            Err(e) => Err(e),
            Ok(None) => Ok(None),
            Ok(Some((raw, next))) => {
                stream.read_pos = next;
                match self.session.decrypt_msg(raw.0.as_slice()) {
                    Ok(payload) => Ok(Some(payload)),
                    Err(e) => Err(e),
                }
            },
        }
    }
}

} // verus!
