use aptos_remote_signer::server_config::default_enable_cached_safety_data;
use aptos_remote_signer::storage::{
    overriding_consensus_key_name, require_identity, require_initialized, StartupError,
};
use aptos_remote_signer::text::{starts_with, u64_to_decimal};

#[test]
fn overriding_key_names_use_lower_case_hex() {
    assert_eq!(overriding_consensus_key_name(&[0xab, 0x01, 0xff]), "consensus_ab01ff");
    assert_eq!(overriding_consensus_key_name(&[]), "consensus_");
}

#[test]
fn identity_needs_address_then_key() {
    assert_eq!(require_identity(Some(1u8), Some("key")), Ok((1u8, "key")));
    assert_eq!(require_identity::<u8, &str>(None, None), Err(StartupError::AccountAddressMissing));
    assert_eq!(require_identity::<u8, &str>(Some(1), None), Err(StartupError::ConsensusKeyMissing));
    assert_eq!(StartupError::AccountAddressMissing.message(), "AccountAddress needed for safety rules");
    assert_eq!(StartupError::ConsensusKeyMissing.message(), "Consensus key needed for safety rules");
}

#[test]
fn uninitialized_storage_is_refused() {
    assert_eq!(require_initialized(true), Ok(()));
    assert_eq!(require_initialized(false), Err(StartupError::StorageNotInitialized));
    assert_eq!(
        StartupError::StorageNotInitialized.message(),
        "Safety rules storage is not initialized, provide an initial config"
    );
    assert!(default_enable_cached_safety_data());
}

#[test]
fn text_helpers() {
    assert_eq!(u64_to_decimal(0), "0");
    assert_eq!(u64_to_decimal(1234567890), "1234567890");
    assert_eq!(u64_to_decimal(u64::MAX), "18446744073709551615");
    assert!(starts_with("InvalidProposal", "Invalid"));
    assert!(!starts_with("Inv", "Invalid"));
    assert!(starts_with("é😀x", "é😀"));
}
