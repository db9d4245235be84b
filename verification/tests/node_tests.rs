use exonum_handshake::crypto::{hash, CryptoHash, UniqueHash};
use exonum_handshake::proof_map::{BranchNode, ChildKind, ProofPath, BRANCH_NODE_SIZE};
use exonum_handshake::storage::StorageValue;

#[test]
fn test_branch_node() {
    let mut branch = BranchNode::empty();

    let lh = hash(&[1, 2]);
    let rh = hash(&[3, 4]);
    let ls = ProofPath::new(&[253; 32]);
    let rs = ProofPath::new(&[244; 32]);

    branch.set_child(ChildKind::Left, &ls, &lh);
    branch.set_child(ChildKind::Right, &rs, &rh);

    assert_eq!(branch.child_hash(ChildKind::Left), lh);
    assert_eq!(branch.child_hash(ChildKind::Right), rh);
    assert_eq!(branch.child_path(ChildKind::Left), ls);
    assert_eq!(branch.child_path(ChildKind::Right), rs);
}

#[test]
fn empty_branch_node_is_all_zeroes() {
    let branch = BranchNode::empty();
    let bytes = branch.into_bytes();
    assert_eq!(bytes.len(), BRANCH_NODE_SIZE);
    assert!(bytes.iter().all(|b| *b == 0));
}

#[test]
fn branch_node_serialization_round_trip() {
    let mut branch = BranchNode::empty();
    branch.set_child(ChildKind::Left, &ProofPath::new(&[5; 32]), &hash(&[9]));
    let bytes = branch.into_bytes();
    let restored = BranchNode::from_bytes(bytes.clone());
    assert_eq!(restored.into_bytes(), bytes);
}

#[test]
fn proof_path_holds_marker_key_and_length() {
    let path = ProofPath::new(&[7; 32]);
    let bytes = path.as_bytes();
    assert_eq!(bytes[0], 1);
    assert!(bytes[1..33].iter().all(|b| *b == 7));
    assert_eq!(bytes[33], 0);
}

#[test]
fn hash_differs_from_its_input() {
    // The digest is a real function of the input, not the input back.
    let input = [0u8; 32];
    let digest = hash(&input);
    assert_ne!(*digest.as_bytes(), input);
    assert_ne!(hash(&[1, 2]), hash(&[2, 1]));
}

#[test]
fn branch_node_hash_covers_its_serialized_bytes() {
    let branch = BranchNode::empty();
    let node_hash = CryptoHash::hash(&branch);
    let bytes = branch.into_bytes();
    assert_eq!(node_hash, hash(&bytes));
}

#[test]
fn unique_hash_delegates_to_the_cryptographic_hash() {
    let mut branch = BranchNode::empty();
    branch.set_child(ChildKind::Left, &ProofPath::new(&[3; 32]), &hash(&[8]));
    assert_eq!(UniqueHash::hash(&branch), CryptoHash::hash(&branch));
}
