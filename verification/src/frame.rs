//! Length-prefixed raw-message framing.
//!
//! One handshake message travels as a frame: a fixed-size unsigned
//! little-endian length prefix followed by exactly that many body bytes.
//! Reading checks the declared length against the configured maximum
//! before the body is touched, so a hostile peer cannot force unbounded
//! buffering.

use vstd::prelude::*;

use crate::error::NoiseError;

verus! {

/// Number of bytes in the length prefix of a frame.
pub const HEADER_LENGTH: usize = 4;

/// The little-endian encoding of a 32-bit length.
pub open spec fn le32(n: u32) -> Seq<u8> {
    seq![
        (n & 0xff) as u8,
        ((n >> 8) & 0xff) as u8,
        ((n >> 16) & 0xff) as u8,
        ((n >> 24) & 0xff) as u8,
    ]
}

/// The 32-bit value encoded by four little-endian bytes.
pub open spec fn u32_from_le(b0: u8, b1: u8, b2: u8, b3: u8) -> u32 {
    ((b0 as u32) | ((b1 as u32) << 8) | ((b2 as u32) << 16) | ((b3 as u32) << 24)) as u32
}

/// The wire form of one frame: length prefix, then the payload.
pub open spec fn frame_seq(payload: Seq<u8>) -> Seq<u8>
    recommends
        payload.len() <= u32::MAX,
{
    le32(payload.len() as u32) + payload
}

/// What a read attempt finds at a position in a byte stream.
pub enum FrameParse {
    /// Not enough bytes have arrived for the prefix or the declared body.
    Incomplete,
    /// The declared length exceeds the maximum; holds the declared length.
    /// The body is not looked at.
    TooLong(u32),
    /// A whole frame; holds the payload and the position just after it.
    Complete(Seq<u8>, int),
}

/// Parses one frame at `pos`, enforcing `max_len` on the declared length
/// before the body is considered.
pub open spec fn parse_frame(buf: Seq<u8>, pos: int, max_len: u32) -> FrameParse
    recommends
        0 <= pos <= buf.len(),
{
    if pos + HEADER_LENGTH > buf.len() {
        FrameParse::Incomplete
    } else {
        let n = u32_from_le(buf[pos], buf[pos + 1], buf[pos + 2], buf[pos + 3]);
        if n > max_len {
            FrameParse::TooLong(n)
        } else if pos + HEADER_LENGTH + n > buf.len() {
            FrameParse::Incomplete
        } else {
            FrameParse::Complete(
                buf.subrange(pos + HEADER_LENGTH, pos + HEADER_LENGTH + n),
                pos + HEADER_LENGTH + n,
            )
        }
    }
}

/// A raw handshake frame body, as read from or written to the wire.
#[derive(Debug)]
pub struct HandshakeRawMessage(pub Vec<u8>);

impl HandshakeRawMessage {
    /// Appends the frame (length prefix, then body) to an outgoing
    /// buffer.  From the reader's point of view the frame appears whole:
    /// nothing else is interleaved with it.
    pub fn write(&self, buf: &mut Vec<u8>)
        requires
            self.0@.len() <= u32::MAX,
            old(buf)@.len() + HEADER_LENGTH + self.0@.len() <= usize::MAX,
        ensures
            final(buf)@ == old(buf)@ + frame_seq(self.0@),
    {
        let n: u32 = self.0.len() as u32;
        buf.push((n & 0xff) as u8);
        buf.push(((n >> 8) & 0xff) as u8);
        buf.push(((n >> 16) & 0xff) as u8);
        buf.push(((n >> 24) & 0xff) as u8);
        let mut i: usize = 0;
        while i < self.0.len()
            invariant
                i <= self.0@.len(),
                self.0@.len() <= u32::MAX,
                n == self.0@.len() as u32,
                old(buf)@.len() + HEADER_LENGTH + self.0@.len() <= usize::MAX,
                buf@ =~= old(buf)@ + le32(n) + self.0@.subrange(0, i as int),
            decreases self.0@.len() - i,
        {
            let byte = self.0[i];
            buf.push(byte);
            i = i + 1;
        }
        proof {
            assert(self.0@.subrange(0, self.0@.len() as int) =~= self.0@);
            assert(buf@ =~= old(buf)@ + frame_seq(self.0@));
        }
    }

    /// Reads one frame at `pos`.  The declared length is checked against
    /// `max_len` before any body byte is read; an over-long declaration
    /// is rejected at once.  A prefix or body that has not fully arrived
    /// yields `Ok(None)`.
    pub fn read(buf: &Vec<u8>, pos: usize, max_len: u32) -> (r: Result<
        Option<(HandshakeRawMessage, usize)>,
        NoiseError,
    >)
        requires
            pos <= buf@.len(),
        ensures
            match parse_frame(buf@, pos as int, max_len) {
                FrameParse::Complete(payload, next) => r matches Ok(Some(p)) && p.0.0@ == payload
                    && p.1 == next,
                FrameParse::Incomplete => r matches Ok(p) && p is None,
                FrameParse::TooLong(n) => r matches Err(e) && e matches
                    NoiseError::WrongMessageLength(m) && m == n,
            },
    {
        if buf.len() - pos < HEADER_LENGTH {
            return Ok(None);
        }
        let b0 = buf[pos];
        let b1 = buf[pos + 1];
        let b2 = buf[pos + 2];
        let b3 = buf[pos + 3];
        let n: u32 = (b0 as u32) | ((b1 as u32) << 8) | ((b2 as u32) << 16) | ((b3 as u32) << 24);
        if n > max_len {
            return Err(NoiseError::WrongMessageLength(n as usize));
        }
        let body_len = n as usize;
        if buf.len() - pos - HEADER_LENGTH < body_len {
            return Ok(None);
        }
        let start = pos + HEADER_LENGTH;
        let buf_len = buf.len();
        let mut body: Vec<u8> = Vec::new();
        let mut i: usize = 0;
        while i < body_len
            invariant
                i <= body_len,
                start + body_len <= buf_len,
                buf_len == buf@.len(),
                body@ =~= buf@.subrange(start as int, start + i),
            decreases body_len - i,
        {
            let byte = buf[start + i];
            body.push(byte);
            i = i + 1;
        }
        proof {
            assert(body@ =~= buf@.subrange(
                pos + HEADER_LENGTH,
                pos + HEADER_LENGTH + n,
            ));
        }
        Ok(Some((HandshakeRawMessage(body), start + body_len)))
    }
}

/// Encoding then decoding reproduces the payload: a frame written after
/// any prefix of the stream parses back to exactly its payload, for any
/// payload no longer than the maximum.
pub proof fn lemma_frame_round_trip(prefix: Seq<u8>, payload: Seq<u8>, max_len: u32)
    requires
        payload.len() <= max_len,
    ensures
        parse_frame(prefix + frame_seq(payload), prefix.len() as int, max_len)
            == FrameParse::Complete(payload, prefix.len() + HEADER_LENGTH + payload.len()),
{
    let buf = prefix + frame_seq(payload);
    let pos = prefix.len() as int;
    let n: u32 = payload.len() as u32;
    assert(buf[pos] == le32(n)[0]);
    assert(buf[pos + 1] == le32(n)[1]);
    assert(buf[pos + 2] == le32(n)[2]);
    assert(buf[pos + 3] == le32(n)[3]);
    lemma_le32_round_trip(n);
    assert(u32_from_le(buf[pos], buf[pos + 1], buf[pos + 2], buf[pos + 3]) == n);
    assert(buf.subrange(pos + HEADER_LENGTH, pos + HEADER_LENGTH + n) =~= payload);
}

/// A frame written for a payload longer than the maximum is rejected
/// when read back: parsing finds exactly the declared over-long length
/// and refuses it.
pub proof fn lemma_frame_above_max_rejected(prefix: Seq<u8>, payload: Seq<u8>, max_len: u32)
    requires
        max_len < payload.len() <= u32::MAX,
    ensures
        parse_frame(prefix + frame_seq(payload), prefix.len() as int, max_len)
            == FrameParse::TooLong(payload.len() as u32),
{
    let buf = prefix + frame_seq(payload);
    let pos = prefix.len() as int;
    let n: u32 = payload.len() as u32;
    assert(buf[pos] == le32(n)[0]);
    assert(buf[pos + 1] == le32(n)[1]);
    assert(buf[pos + 2] == le32(n)[2]);
    assert(buf[pos + 3] == le32(n)[3]);
    lemma_le32_round_trip(n);
}

/// A declared length above the maximum is rejected, and the rejection
/// depends on the four prefix bytes alone: any two streams that agree on
/// the prefix at `pos` are rejected alike, whatever their bodies hold.
pub proof fn lemma_oversized_rejected_before_body(
    buf1: Seq<u8>,
    buf2: Seq<u8>,
    pos: int,
    max_len: u32,
)
    requires
        0 <= pos,
        pos + HEADER_LENGTH <= buf1.len(),
        pos + HEADER_LENGTH <= buf2.len(),
        forall|i: int| pos <= i < pos + HEADER_LENGTH ==> buf1[i] == buf2[i],
        u32_from_le(buf1[pos], buf1[pos + 1], buf1[pos + 2], buf1[pos + 3]) > max_len,
    ensures
        parse_frame(buf1, pos, max_len) == parse_frame(buf2, pos, max_len),
        parse_frame(buf1, pos, max_len) matches FrameParse::TooLong(n) && n > max_len,
{
}

/// A length prefix decodes back to the length it encodes.
pub proof fn lemma_le32_round_trip(n: u32)
    ensures
        u32_from_le(le32(n)[0], le32(n)[1], le32(n)[2], le32(n)[3]) == n,
{
    assert(((((n & 0xff) as u8) as u32) | ((((n >> 8) & 0xff) as u8) as u32) << 8
        | ((((n >> 16) & 0xff) as u8) as u32) << 16 | ((((n >> 24) & 0xff) as u8) as u32) << 24)
        as u32 == n) by (bit_vector);
}

} // verus!
