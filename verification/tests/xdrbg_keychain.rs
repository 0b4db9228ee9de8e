use key_chains::crypto_primitives::xdrbg_ops::Xof;
use key_chains::errors::Errors;
use key_chains::key_chains::storage_handler::{DefaultStorage, KeyChainType, Storage};
use key_chains::key_chains::xdrbg_keychain::XdrbgKeyChain;

fn sample_seed(xof: Xof) -> Vec<u8> {
    // Use minimum seed size for each XOF
    match xof {
        Xof::Shake128 => vec![0x11; 24],
        Xof::Shake256 => vec![0x22; 48],
        Xof::Ascon => vec![0x33; 24],
    }
}

#[test]
fn xdrbg_keychain_test_instantiate_without_storage() {
    let xof = Xof::Shake128;
    let keychain = XdrbgKeyChain::<DefaultStorage>::new(xof, None, Some(false), None).unwrap();
    let initial_state = keychain
        .key_chain_instantiate(&sample_seed(xof), None)
        .unwrap();
    assert_eq!(initial_state.len(), xof.state_size());
}

#[test]
fn xdrbg_keychain_test_instantiate_with_missing_storage() {
    let xof = Xof::Shake256;
    let err = XdrbgKeyChain::<DefaultStorage>::new(xof, None, Some(true), None);
    match err {
        Err(Errors::UninitializedStorage(msg)) => {
            assert!(msg.contains("Xdrbg keychain storage not initialized"))
        }
        _ => panic!("Expected UninitializedStorage error"),
    }
}

#[test]
fn xdrbg_keychain_test_update_and_persistent_storage() {
    let xof = Xof::Ascon;
    let storage = DefaultStorage::new(KeyChainType::XdrbgKeyChain);
    let mut keychain = XdrbgKeyChain::new(xof, None, Some(true), Some(storage)).unwrap();

    let initial_state = keychain
        .key_chain_instantiate(&sample_seed(xof), None)
        .unwrap();

    let (new_state, random_output) = keychain
        .key_chain_update(&sample_seed(xof), &initial_state, None, None)
        .unwrap();

    assert_eq!(new_state.len(), xof.state_size());
    assert_eq!(random_output.len(), xof.state_size());

    // Check that state is stored in storage
    let fetched = keychain
        .storage
        .as_ref()
        .unwrap()
        .fetch_xdrbg_keychain_state(xof)
        .unwrap();
    assert_eq!(fetched, new_state);
}

#[test]
fn xdrbg_keychain_test_update_non_persistent_storage() {
    let xof = Xof::Shake128;
    let mut keychain =
        XdrbgKeyChain::<DefaultStorage>::new(xof, None, Some(false), None).unwrap();
    let initial_state = keychain
        .key_chain_instantiate(&sample_seed(xof), None)
        .unwrap();

    let (new_state, random_output) = keychain
        .key_chain_update(&sample_seed(xof), &initial_state, None, None)
        .unwrap();

    assert_eq!(new_state.len(), xof.state_size());
    assert_eq!(random_output.len(), xof.state_size());
}

#[test]
fn xdrbg_keychain_test_storage_fetch_error() {
    let storage = DefaultStorage::new(KeyChainType::XdrbgKeyChain);
    let err = storage
        .fetch_xdrbg_keychain_state(Xof::Shake256)
        .unwrap_err();
    match err {
        Errors::NoStoredState(msg) => assert!(msg.contains("No Xdrbg state found")),
        _ => panic!("Expected NoStoredState error"),
    }
}
