//! Nodes of the Merkle-ized proof map.
//!
//! A branch node is stored as one flat byte string: the two child
//! hashes, then the two child paths.  Readers and writers address the
//! four fields by fixed offsets.

use vstd::prelude::*;

use vstd::pervasive::VecAdditionalExecFns;

use crate::crypto;
use crate::crypto::{CryptoHash, HASH_SIZE};
use crate::storage::StorageValue;

verus! {

/// Number of bytes in a serialized proof path: a marker byte, the
/// 32-byte key, and a bit-length byte.
pub const PROOF_PATH_SIZE: usize = 34;

/// Number of bytes in a serialized branch node.
pub const BRANCH_NODE_SIZE: usize = 2 * (HASH_SIZE + PROOF_PATH_SIZE);

/// Which child of a branch node.
#[derive(Clone, Copy, Debug, PartialEq, Eq, Structural)]
pub enum ChildKind {
    /// The left child.
    Left,
    /// The right child.
    Right,
}

/// The serialized form of a full-length path: a marker byte, the key
/// bytes, and a bit-length byte where zero encodes all 256 bits.
pub open spec fn path_seq(key: Seq<u8>) -> Seq<u8> {
    seq![1u8] + key + seq![0u8]
}

/// A path from the root of the proof map to a node.
#[derive(Clone, Copy, Debug, PartialEq, Eq)]
pub struct ProofPath {
    bytes: [u8; 34],
}

impl View for ProofPath {
    type V = Seq<u8>;

    closed spec fn view(&self) -> Seq<u8> {
        self.bytes@
    }
}

impl ProofPath {
    /// A well-formed path holds exactly its serialized bytes.
    pub open spec fn wf(&self) -> bool {
        self@.len() == PROOF_PATH_SIZE
    }

    /// The full-length path of a 32-byte key.
    pub fn new(key: &[u8; 32]) -> (r: Self)
        ensures
            r@ == path_seq(key@),
    {
        let bytes: [u8; 34] = [
            1u8, key[0], key[1], key[2], key[3], key[4], key[5], key[6], key[7], key[8], key[9],
            key[10], key[11], key[12], key[13], key[14], key[15], key[16], key[17], key[18],
            key[19], key[20], key[21], key[22], key[23], key[24], key[25], key[26], key[27],
            key[28], key[29], key[30], key[31], 0u8,
        ];
        let r = ProofPath { bytes };
        proof {
            assert(r@ =~= path_seq(key@));
        }
        r
    }

    /// Reads a path back from `PROOF_PATH_SIZE` bytes at `from`.
    pub fn read(buffer: &Vec<u8>, from: usize) -> (r: Self)
        requires
            from + PROOF_PATH_SIZE <= buffer@.len(),
        ensures
            r@ == buffer@.subrange(from as int, from + PROOF_PATH_SIZE),
    {
        let buffer_len = buffer.len();
        proof {
            assert(from + PROOF_PATH_SIZE <= buffer_len);
        }
        let bytes: [u8; 34] = [
            buffer[from], buffer[from + 1], buffer[from + 2], buffer[from + 3], buffer[from + 4],
            buffer[from + 5], buffer[from + 6], buffer[from + 7], buffer[from + 8],
            buffer[from + 9], buffer[from + 10], buffer[from + 11], buffer[from + 12],
            buffer[from + 13], buffer[from + 14], buffer[from + 15], buffer[from + 16],
            buffer[from + 17], buffer[from + 18], buffer[from + 19], buffer[from + 20],
            buffer[from + 21], buffer[from + 22], buffer[from + 23], buffer[from + 24],
            buffer[from + 25], buffer[from + 26], buffer[from + 27], buffer[from + 28],
            buffer[from + 29], buffer[from + 30], buffer[from + 31], buffer[from + 32],
            buffer[from + 33],
        ];
        let r = ProofPath { bytes };
        proof {
            assert(r@ =~= buffer@.subrange(from as int, from + PROOF_PATH_SIZE));
        }
        r
    }

    /// The serialized bytes of the path.
    pub fn as_bytes(&self) -> (r: &[u8; 34])
        ensures
            r@ == self@,
    {
        &self.bytes
    }
}

/// A byte string with `bytes` written over it at `from`, the rest kept.
pub open spec fn spliced(buf: Seq<u8>, from: int, bytes: Seq<u8>) -> Seq<u8> {
    buf.subrange(0, from) + bytes + buf.subrange(from + bytes.len(), buf.len() as int)
}

/// Writes `src` over `dst` at `from`, leaving the rest untouched.
fn write_bytes_at(dst: &mut Vec<u8>, from: usize, src: &[u8])
    requires
        from + src@.len() <= old(dst)@.len(),
    ensures
        final(dst)@ == spliced(old(dst)@, from as int, src@),
{
    let n = src.len();
    let dst_len = dst.len();
    proof {
        assert(from + n <= dst_len);
    }
    let mut i: usize = 0;
    while i < n
        invariant
            i <= n,
            n == src@.len(),
            from + n <= usize::MAX,
            from + n <= dst@.len(),
            dst@.len() == old(dst)@.len(),
            forall|j: int| 0 <= j < i ==> dst@[from + j] == src@[j],
            forall|j: int| 0 <= j < dst@.len() && !(from <= j < from + i) ==> dst@[j] == old(
                dst,
            )@[j],
        decreases n - i,
    {
        let byte = src[i];
        dst.set(from + i, byte);
        i = i + 1;
    }
    proof {
        assert(dst@ =~= spliced(old(dst)@, from as int, src@));
    }
}

/// One branch of the proof map, serialized as two child hashes followed
/// by two child paths.
#[derive(Debug)]
pub struct BranchNode {
    raw: Vec<u8>,
}

impl View for BranchNode {
    type V = Seq<u8>;

    closed spec fn view(&self) -> Seq<u8> {
        self.raw@
    }
}

/// The offset of a child hash inside a branch node.
pub open spec fn hash_offset(kind: ChildKind) -> int {
    match kind {
        ChildKind::Left => 0,
        ChildKind::Right => HASH_SIZE as int,
    }
}

/// The offset of a child path inside a branch node.
pub open spec fn path_offset(kind: ChildKind) -> int {
    match kind {
        ChildKind::Left => 2 * HASH_SIZE as int,
        ChildKind::Right => 2 * HASH_SIZE as int + PROOF_PATH_SIZE as int,
    }
}

impl BranchNode {
    /// A well-formed node holds exactly `BRANCH_NODE_SIZE` bytes.
    pub open spec fn wf(&self) -> bool {
        self@.len() == BRANCH_NODE_SIZE
    }

    /// An all-zero branch node.
    pub fn empty() -> (r: Self)
        ensures
            r.wf(),
            forall|i: int| 0 <= i < BRANCH_NODE_SIZE ==> r@[i] == 0u8,
    {
        let mut raw: Vec<u8> = Vec::new();
        let mut i: usize = 0;
        while i < BRANCH_NODE_SIZE
            invariant
                i <= BRANCH_NODE_SIZE,
                raw@.len() == i,
                forall|j: int| 0 <= j < i ==> raw@[j] == 0u8,
            decreases BRANCH_NODE_SIZE - i,
        {
            raw.push(0u8);
            i = i + 1;
        }
        BranchNode { raw }
    }

    /// The stored hash of a child.
    pub fn child_hash(&self, kind: ChildKind) -> (r: crypto::Hash)
        requires
            self.wf(),
        ensures
            r@ == self@.subrange(hash_offset(kind), hash_offset(kind) + HASH_SIZE),
    {
        let from: usize = match kind {
            ChildKind::Right => HASH_SIZE,
            ChildKind::Left => 0,
        };
        let bytes = read32(&self.raw, from);
        crypto::Hash::from_bytes(bytes)
    }

    /// The stored path of a child.
    pub fn child_path(&self, kind: ChildKind) -> (r: ProofPath)
        requires
            self.wf(),
        ensures
            r@ == self@.subrange(path_offset(kind), path_offset(kind) + PROOF_PATH_SIZE),
    {
        let from: usize = match kind {
            ChildKind::Right => 2 * HASH_SIZE + PROOF_PATH_SIZE,
            ChildKind::Left => 2 * HASH_SIZE,
        };
        ProofPath::read(&self.raw, from)
    }

    /// Stores the path of a child, leaving the rest of the node as it
    /// was.
    pub fn set_child_path(&mut self, kind: ChildKind, prefix: &ProofPath)
        requires
            old(self).wf(),
            prefix.wf(),
        ensures
            final(self).wf(),
            final(self)@ == spliced(old(self)@, path_offset(kind), prefix@),
    {
        let from: usize = match kind {
            ChildKind::Right => 2 * HASH_SIZE + PROOF_PATH_SIZE,
            ChildKind::Left => 2 * HASH_SIZE,
        };
        write_bytes_at(&mut self.raw, from, prefix.as_bytes().as_slice());
    }

    /// Stores the hash of a child, leaving the rest of the node as it
    /// was.
    pub fn set_child_hash(&mut self, kind: ChildKind, hash: &crypto::Hash)
        requires
            old(self).wf(),
        ensures
            final(self).wf(),
            final(self)@ == spliced(old(self)@, hash_offset(kind), hash@),
    {
        let from: usize = match kind {
            ChildKind::Right => HASH_SIZE,
            ChildKind::Left => 0,
        };
        write_bytes_at(&mut self.raw, from, hash.as_bytes().as_slice());
    }

    /// Stores both the path and the hash of a child.
    pub fn set_child(&mut self, kind: ChildKind, prefix: &ProofPath, hash: &crypto::Hash)
        requires
            old(self).wf(),
            prefix.wf(),
        ensures
            final(self).wf(),
            final(self)@ == spliced(
                spliced(old(self)@, path_offset(kind), prefix@),
                hash_offset(kind),
                hash@,
            ),
    {
        self.set_child_path(kind, prefix);
        self.set_child_hash(kind, hash);
    }
}

/// Reads 32 bytes at `from`.
fn read32(v: &Vec<u8>, from: usize) -> (r: [u8; 32])
    requires
        from + 32 <= v@.len(),
    ensures
        r@ == v@.subrange(from as int, from + 32),
{
    let v_len = v.len();
    proof {
        assert(from + 32 <= v_len);
    }
    let r: [u8; 32] = [
        v[from], v[from + 1], v[from + 2], v[from + 3], v[from + 4], v[from + 5], v[from + 6],
        v[from + 7], v[from + 8], v[from + 9], v[from + 10], v[from + 11], v[from + 12],
        v[from + 13], v[from + 14], v[from + 15], v[from + 16], v[from + 17], v[from + 18],
        v[from + 19], v[from + 20], v[from + 21], v[from + 22], v[from + 23], v[from + 24],
        v[from + 25], v[from + 26], v[from + 27], v[from + 28], v[from + 29], v[from + 30],
        v[from + 31],
    ];
    proof {
        assert(r@ =~= v@.subrange(from as int, from + 32));
    }
    r
}

impl CryptoHash for BranchNode {
    /// A branch node is hashed over its serialized bytes.
    open spec fn hash_input(&self) -> Seq<u8> {
        self@
    }

    fn hash(&self) -> (r: crypto::Hash) {
        crypto::hash(self.raw.as_slice())
    }
}

impl StorageValue for BranchNode {
    open spec fn wf_bytes(bytes: Seq<u8>) -> bool {
        bytes.len() == BRANCH_NODE_SIZE
    }

    /// The serialized form is the raw buffer itself.
    open spec fn bytes_view(&self) -> Seq<u8> {
        self@
    }

    fn into_bytes(self) -> (r: Vec<u8>) {
        self.raw
    }

    fn from_bytes(value: Vec<u8>) -> (r: Self) {
        BranchNode { raw: value }
    }
}

/// A node of the proof map: a leaf value, or an inner branch.
#[derive(Debug)]
pub enum Node<T: StorageValue> {
    /// A leaf carrying a stored value.
    Leaf(T),
    /// An inner branch.
    Branch(BranchNode),
}

} // verus!
