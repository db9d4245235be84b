//! The allow-list of trusted peers.
//!
//! A connect list maps peer identity keys to advertised addresses.  A
//! connection attempt holds a point-in-time-consistent snapshot handle:
//! it sees exactly one version of the list for its whole life, never a
//! half-updated mix, while configuration reloads elsewhere build new
//! versions freely.

use vstd::prelude::*;

use crate::crypto;
use crate::crypto::ed_public_decodes;
use crate::x25519;
use crate::x25519::x25519_public_of;

verus! {

/// The abstract value of one connect-list entry.
pub struct ConnectInfoView {
    /// The advertised address.
    pub address: Seq<char>,
    /// The identity public key bytes.
    pub public_key: Seq<u8>,
}

/// One trusted peer: identity key and advertised network address.
#[derive(Debug)]
pub struct ConnectInfo {
    /// The advertised address, host and port.
    pub address: String,
    /// The identity (signing) public key.
    pub public_key: crypto::PublicKey,
}

impl View for ConnectInfo {
    type V = ConnectInfoView;

    open spec fn view(&self) -> ConnectInfoView {
        ConnectInfoView { address: self.address@, public_key: self.public_key@ }
    }
}

impl ConnectInfo {
    /// Builds an entry.
    pub fn new(address: String, public_key: crypto::PublicKey) -> (r: Self)
        ensures
            r@.address == address@,
            r@.public_key == public_key@,
    {
        ConnectInfo { address, public_key }
    }

    /// An element-wise copy of the entry.
    pub fn duplicate(&self) -> (r: Self)
        ensures
            r@ == self@,
    {
        ConnectInfo { address: self.address.clone(), public_key: self.public_key }
    }
}

/// The abstract value of a connect list: its entries, in order.
pub open spec fn peers_view(peers: Seq<ConnectInfo>) -> Seq<ConnectInfoView> {
    peers.map_values(|c: ConnectInfo| c@)
}

/// Whether one entry admits a revealed key-agreement key: the entry's
/// identity key must decode and convert to exactly that key.
pub open spec fn entry_matches(entry: ConnectInfoView, remote: Seq<u8>) -> bool {
    ed_public_decodes(entry.public_key) && x25519_public_of(entry.public_key) == remote
}

/// Whether some entry of the list admits a revealed key-agreement key.
pub open spec fn allowed_spec(peers: Seq<ConnectInfoView>, remote: Seq<u8>) -> bool {
    exists|i: int| 0 <= i < peers.len() && entry_matches(peers[i], remote)
}

/// Decides admission of a revealed key against a list of entries,
/// converting each entry's identity key to the key-agreement curve.
pub fn is_allowed(peers: &Vec<ConnectInfo>, remote: &x25519::PublicKey) -> (r: bool)
    ensures
        r == allowed_spec(peers_view(peers@), remote@),
{
    let n = peers.len();
    let mut i: usize = 0;
    while i < n
        invariant
            i <= n,
            n == peers@.len(),
            forall|j: int| 0 <= j < i ==> !entry_matches(#[trigger] peers_view(peers@)[j], remote@),
        decreases n - i,
    {
        match x25519::into_x25519_public_key(&peers[i].public_key) {
            Some(key) => {
                if x25519::public_key_eq(&key, remote) {
                    proof {
                        assert(entry_matches(peers_view(peers@)[i as int], remote@));
                    }
                    return true;
                }
            },
            None => {},
        }
        proof {
            assert(!entry_matches(peers_view(peers@)[i as int], remote@));
        }
        i = i + 1;
    }
    proof {
        assert(forall|j: int| 0 <= j < peers_view(peers@).len()
            ==> !entry_matches(#[trigger] peers_view(peers@)[j], remote@));
    }
    false
}

/// A snapshot handle on the connect list, as one connection attempt
/// holds it.  The handle is read-only and value-consistent: every read
/// through it observes the same version of the list, so a configuration
/// update running concurrently elsewhere is either wholly visible to a
/// later attempt or not visible at all, never partially.
#[derive(Debug)]
pub struct SharedConnectList {
    peers: Vec<ConnectInfo>,
}

impl View for SharedConnectList {
    type V = Seq<ConnectInfoView>;

    closed spec fn view(&self) -> Seq<ConnectInfoView> {
        peers_view(self.peers@)
    }
}

impl SharedConnectList {
    /// An empty list: no peer is trusted.
    pub fn new() -> (r: Self)
        ensures
            r@.len() == 0,
    {
        let l = SharedConnectList { peers: Vec::new() };
        proof {
            assert(l@ =~= Seq::<ConnectInfoView>::empty());
        }
        l
    }

    /// A snapshot built from the given entries.
    pub fn from_peers(peers: Vec<ConnectInfo>) -> (r: Self)
        ensures
            r@ == peers_view(peers@),
    {
        SharedConnectList { peers }
    }

    /// The entries of this snapshot, in order.
    pub fn peers(&self) -> (r: Vec<ConnectInfo>)
        ensures
            peers_view(r@) == self@,
    {
        let n = self.peers.len();
        let mut out: Vec<ConnectInfo> = Vec::new();
        let mut i: usize = 0;
        while i < n
            invariant
                i <= n,
                n == self.peers@.len(),
                out@.len() == i,
                forall|j: int| 0 <= j < i ==> #[trigger] out@[j]@ == self.peers@[j]@,
            decreases n - i,
        {
            let entry = self.peers[i].duplicate();
            out.push(entry);
            i = i + 1;
        }
        proof {
            assert(peers_view(out@) =~= peers_view(self.peers@));
        }
        out
    }

    /// An element-wise copy of the snapshot handle.
    pub fn duplicate(&self) -> (r: Self)
        ensures
            r@ == self@,
    {
        SharedConnectList { peers: self.peers() }
    }

    /// Decides admission of a revealed key against this snapshot.
    pub fn is_allowed(&self, remote: &x25519::PublicKey) -> (r: bool)
        ensures
            r == allowed_spec(self@, remote@),
    {
        is_allowed(&self.peers, remote)
    }
}

} // verus!
