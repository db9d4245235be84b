use exonum_handshake::config::ConfigurationServiceConfig;
use exonum_handshake::connect_list::{is_allowed, ConnectInfo};
use exonum_handshake::crypto::gen_keypair_from_seed;
use exonum_handshake::genesis::{ConsensusConfig, GenesisConfig, ValidatorKeys};
use exonum_handshake::service::{PublicApi, Service, ServiceApiBuilder, ServiceFactory};
use exonum_handshake::storage::{DbOptions, StorageError};
use exonum_handshake::x25519::into_x25519_public_key;

#[test]
fn genesis_config_keeps_validators_and_default_consensus() {
    let (pk1, _) = gen_keypair_from_seed(&[1; 32]);
    let (pk2, _) = gen_keypair_from_seed(&[2; 32]);
    let validators = vec![
        ValidatorKeys { consensus_key: pk1, service_key: pk2 },
        ValidatorKeys { consensus_key: pk2, service_key: pk1 },
    ];
    let config = GenesisConfig::new(validators);
    assert_eq!(config.validator_keys.len(), 2);
    assert_eq!(config.validator_keys[0].consensus_key.bytes, pk1.bytes);
    assert_eq!(config.consensus, ConsensusConfig::default());
}

#[test]
fn genesis_config_with_explicit_consensus() {
    let mut consensus = ConsensusConfig::default();
    consensus.txs_block_limit = 7;
    let config = GenesisConfig::new_with_consensus(consensus, Vec::new());
    assert_eq!(config.consensus.txs_block_limit, 7);
    assert!(config.validator_keys.is_empty());
}

#[test]
fn consensus_config_default_values() {
    let config = ConsensusConfig::default();
    assert_eq!(config.round_timeout, 3000);
    assert_eq!(config.status_timeout, 5000);
    assert_eq!(config.peers_timeout, 10000);
    assert_eq!(config.txs_block_limit, 1000);
    assert_eq!(config.max_message_len, 1024 * 1024);
    assert_eq!(config.min_propose_timeout, 10);
    assert_eq!(config.max_propose_timeout, 200);
    assert_eq!(config.propose_timeout_threshold, 500);
}

#[test]
fn db_options_default() {
    let options = DbOptions::default();
    assert!(options.max_open_files.is_none());
    assert!(options.create_if_missing);
}

#[test]
fn configuration_service_config_default() {
    let config = ConfigurationServiceConfig::default();
    assert!(config.majority_count.is_none());
}

#[test]
fn storage_error_keeps_its_message() {
    let err = StorageError::new("database is closed".to_string());
    assert_eq!(err.description(), "database is closed");
}

#[test]
fn service_identity() {
    let service = Service;
    assert_eq!(service.service_id(), 127);
    assert_eq!(service.service_name(), "test");
}

#[test]
fn service_factory_builds_the_service() {
    let mut factory = ServiceFactory;
    assert_eq!(factory.service_name(), "test");
    let service = factory.make_service();
    assert_eq!(service.service_id(), 127);
}

#[test]
fn wire_registers_the_wallet_endpoint() {
    let mut builder = ServiceApiBuilder::new();
    PublicApi::wire(&mut builder);
    assert_eq!(builder.public_scope.endpoints, vec!["v1/wallets/test".to_string()]);
    let service = Service;
    service.wire_api(&mut builder);
    assert_eq!(builder.public_scope.endpoints.len(), 2);
}

#[test]
fn admission_converts_entries_to_the_agreement_curve() {
    let (pk, _) = gen_keypair_from_seed(&[5; 32]);
    let converted = into_x25519_public_key(&pk).unwrap();
    // The conversion is not the identity on the key bytes.
    assert_ne!(converted.bytes, pk.bytes);
    let peers = vec![ConnectInfo::new("10.0.0.1:2000".to_string(), pk)];
    assert!(is_allowed(&peers, &converted));
    let (stranger, _) = gen_keypair_from_seed(&[6; 32]);
    let stranger_converted = into_x25519_public_key(&stranger).unwrap();
    assert!(!is_allowed(&peers, &stranger_converted));
}
