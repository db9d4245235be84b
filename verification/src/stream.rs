//! An in-memory endpoint of a duplex byte stream.
//!
//! The handshake and the codec consume bytes that have arrived from the
//! peer and append bytes to be sent.  An I/O layer around the library
//! moves bytes between two such endpoints, over a socket or a test
//! buffer; a read that finds too few bytes simply leaves the endpoint
//! unchanged, which is the library's suspension point.

use vstd::prelude::*;

verus! {

/// One endpoint of a duplex byte stream.
#[derive(Debug)]
pub struct BufferStream {
    /// Bytes that have arrived from the peer, in order.
    pub input: Vec<u8>,
    /// How many of the arrived bytes were already consumed.
    pub read_pos: usize,
    /// Bytes written toward the peer and not yet taken by the I/O layer.
    pub output: Vec<u8>,
}

impl BufferStream {
    /// The endpoint is consistent: the consumed prefix lies within the
    /// arrived bytes.
    pub open spec fn wf(&self) -> bool {
        self.read_pos <= self.input@.len()
    }

    /// A fresh endpoint with nothing arrived and nothing written.
    pub fn new() -> (r: Self)
        ensures
            r.wf(),
            r.input@.len() == 0,
            r.read_pos == 0,
            r.output@.len() == 0,
    {
        BufferStream { input: Vec::new(), read_pos: 0, output: Vec::new() }
    }

    /// Hands newly arrived bytes to the endpoint.
    pub fn deliver(&mut self, bytes: &Vec<u8>)
        requires
            old(self).wf(),
            old(self).input@.len() + bytes@.len() <= usize::MAX,
        ensures
            final(self).wf(),
            final(self).input@ == old(self).input@ + bytes@,
            final(self).read_pos == old(self).read_pos,
            final(self).output@ == old(self).output@,
    {
        let n = bytes.len();
        let mut i: usize = 0;
        while i < n
            invariant
                i <= n,
                n == bytes@.len(),
                old(self).input@.len() + n <= usize::MAX,
                self.input@ =~= old(self).input@ + bytes@.subrange(0, i as int),
                self.read_pos == old(self).read_pos,
                self.output@ == old(self).output@,
            decreases n - i,
        {
            let byte = bytes[i];
            self.input.push(byte);
            i = i + 1;
        }
        proof {
            assert(bytes@.subrange(0, bytes@.len() as int) =~= bytes@);
            assert(self.input@ =~= old(self).input@ + bytes@);
            assert(old(self).read_pos <= old(self).input@.len());
        }
    }

    /// Takes every byte written so far, leaving the output empty.
    pub fn take_output(&mut self) -> (r: Vec<u8>)
        requires
            old(self).wf(),
        ensures
            final(self).wf(),
            r@ == old(self).output@,
            final(self).output@.len() == 0,
            final(self).input@ == old(self).input@,
            final(self).read_pos == old(self).read_pos,
    {
        let mut taken: Vec<u8> = Vec::new();
        std::mem::swap(&mut taken, &mut self.output);
        taken
    }

    /// How many arrived bytes are still unconsumed.
    pub fn pending_input(&self) -> (r: usize)
        requires
            self.wf(),
        ensures
            r == self.input@.len() - self.read_pos,
    {
        self.input.len() - self.read_pos
    }
}

} // verus!
