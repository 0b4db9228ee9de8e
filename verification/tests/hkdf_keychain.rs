use key_chains::crypto_primitives::hkdf_wrap_ops::HashFunc;
use key_chains::errors::Errors;
use key_chains::key_chains::hkdf_keychain::HkdfKeyChain;
use key_chains::key_chains::storage_handler::{DefaultStorage, KeyChainType, Storage};

fn sample_input() -> Vec<u8> {
    b"test input".to_vec()
}

#[test]
fn hkdf_keychain_test_instantiate_without_storage() {
    let keychain =
        HkdfKeyChain::<DefaultStorage>::new(HashFunc::Sha256, None, Some(false), None).unwrap();
    let initial_state = keychain
        .key_chain_instantiate(&sample_input(), None, None)
        .unwrap();
    assert_eq!(initial_state.len(), HashFunc::Sha256.output_size());
}

#[test]
fn hkdf_keychain_test_instantiate_with_missing_storage() {
    let err = HkdfKeyChain::<DefaultStorage>::new(HashFunc::Sha256, None, Some(true), None);
    match err {
        Err(Errors::UninitializedStorage(msg)) => {
            assert!(msg.contains("Hkdf keychain storage not initialized"))
        }
        _ => panic!("Expected UninitializedStorage error"),
    }
}

#[test]
fn hkdf_keychain_test_update_and_persistent_storage() {
    let storage = DefaultStorage::new(KeyChainType::HkdfKeyChain);
    let mut keychain =
        HkdfKeyChain::new(HashFunc::Sha256, None, Some(true), Some(storage)).unwrap();

    let initial_state = keychain
        .key_chain_instantiate(&sample_input(), None, None)
        .unwrap();

    let (new_state, random_output) = keychain
        .key_chain_update(b"update", &initial_state, None, None)
        .unwrap();

    // Check output lengths
    assert_eq!(new_state.len(), HashFunc::Sha256.output_size());
    assert_eq!(random_output.len(), HashFunc::Sha256.output_size());

    // Check that state is stored in storage
    let fetched = keychain
        .storage
        .as_ref()
        .unwrap()
        .fetch_hkdf_keychain_state(HashFunc::Sha256)
        .unwrap();
    assert_eq!(fetched, new_state);
}

#[test]
fn hkdf_keychain_test_update_non_persistent_storage() {
    let mut keychain =
        HkdfKeyChain::<DefaultStorage>::new(HashFunc::Sha256, None, Some(false), None).unwrap();
    let initial_state = keychain
        .key_chain_instantiate(&sample_input(), None, None)
        .unwrap();

    let (new_state, random_output) = keychain
        .key_chain_update(b"update", &initial_state, None, None)
        .unwrap();

    assert_eq!(new_state.len(), HashFunc::Sha256.output_size());
    assert_eq!(random_output.len(), HashFunc::Sha256.output_size());
}

#[test]
fn hkdf_keychain_test_storage_fetch_error() {
    let storage = DefaultStorage::new(KeyChainType::HkdfKeyChain);
    let err = storage
        .fetch_hkdf_keychain_state(HashFunc::Sha512)
        .unwrap_err();
    match err {
        Errors::NoStoredState(msg) => assert!(msg.contains("No Hkdf state found")),
        _ => panic!("Expected NoStoredState error"),
    }
}
