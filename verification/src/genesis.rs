//! The initial configuration committed into the genesis block.

use vstd::prelude::*;

use crate::crypto;

verus! {

/// Consensus-related tuning of the network, shared by every validator.
#[derive(Debug, Clone, Copy, PartialEq, Eq, Structural)]
pub struct ConsensusConfig {
    /// Interval between rounds, in milliseconds.
    pub round_timeout: u64,
    /// Period of sending a status message, in milliseconds.
    pub status_timeout: u64,
    /// Period of sending peer exchange messages, in milliseconds.
    pub peers_timeout: u64,
    /// Maximum number of transactions per block.
    pub txs_block_limit: u32,
    /// Maximum message length in bytes.
    pub max_message_len: u32,
    /// Minimal propose timeout, in milliseconds.
    pub min_propose_timeout: u64,
    /// Maximal propose timeout, in milliseconds.
    pub max_propose_timeout: u64,
    /// Number of pending transactions above which the minimal propose
    /// timeout is used.
    pub propose_timeout_threshold: u32,
}

impl Default for ConsensusConfig {
    /// The stock tuning of a fresh network.
    fn default() -> (r: Self)
        ensures
            r.round_timeout == 3000,
            r.status_timeout == 5000,
            r.peers_timeout == 10000,
            r.txs_block_limit == 1000,
            r.max_message_len == 1048576,
            r.min_propose_timeout == 10,
            r.max_propose_timeout == 200,
            r.propose_timeout_threshold == 500,
    {
        Self {
            round_timeout: 3000,
            status_timeout: 5000,
            peers_timeout: 10000,
            txs_block_limit: 1000,
            max_message_len: 1048576,
            min_propose_timeout: 10,
            max_propose_timeout: 200,
            propose_timeout_threshold: 500,
        }
    }
}

/// The two public keys a validator signs with.
#[derive(Debug, Clone, Copy)]
pub struct ValidatorKeys {
    /// Key for voting in the consensus.
    pub consensus_key: crypto::PublicKey,
    /// Key for signing service transactions.
    pub service_key: crypto::PublicKey,
}

/// The initial configuration which is committed into the genesis block.
///
/// The genesis block is the first block in the blockchain, created when
/// the blockchain is initially launched.  It includes consensus-related
/// configuration and the public keys of validators.
#[derive(Debug)]
pub struct GenesisConfig {
    /// Consensus configuration.
    pub consensus: ConsensusConfig,
    /// List of public keys of validators.
    pub validator_keys: Vec<ValidatorKeys>,
}

impl GenesisConfig {
    /// Creates a default configuration from the given list of public
    /// keys.
    pub fn new(validators: Vec<ValidatorKeys>) -> (r: Self)
        ensures
            r.validator_keys@ == validators@,
            r.consensus.round_timeout == 3000,
            r.consensus.status_timeout == 5000,
            r.consensus.peers_timeout == 10000,
            r.consensus.txs_block_limit == 1000,
            r.consensus.max_message_len == 1048576,
            r.consensus.min_propose_timeout == 10,
            r.consensus.max_propose_timeout == 200,
            r.consensus.propose_timeout_threshold == 500,
    {
        Self::new_with_consensus(ConsensusConfig::default(), validators)
    }

    /// Creates a configuration from the given consensus configuration
    /// and list of public keys.
    pub fn new_with_consensus(consensus: ConsensusConfig, validator_keys: Vec<ValidatorKeys>) -> (r:
        Self)
        ensures
            r.consensus == consensus,
            r.validator_keys@ == validator_keys@,
    {
        Self { consensus, validator_keys }
    }
}

} // verus!
