use key_chains::errors::Errors;
use key_chains::key_chains::prg_keychain::PrgKeyChain;
use key_chains::key_chains::storage_handler::{DefaultStorage, KeyChainType, Storage};

fn sample_seed(lambda: usize) -> Vec<u8> {
    (0..lambda).map(|i| (i % 256) as u8).collect()
}

#[test]
fn prg_keychain_test_instantiate_without_storage() {
    let lambda = 16;
    let keychain = PrgKeyChain::<DefaultStorage>::new(lambda, Some(false), None).unwrap();
    let initial_state = keychain
        .key_chain_instantiate(&sample_seed(lambda))
        .unwrap();
    assert_eq!(initial_state.len(), lambda);
}

#[test]
fn prg_keychain_test_instantiate_with_missing_storage() {
    let lambda = 16;
    let err = PrgKeyChain::<DefaultStorage>::new(lambda, Some(true), None);
    match err {
        Err(Errors::UninitializedStorage(msg)) => {
            assert!(msg.contains("Prg keychain storage not initialized"))
        }
        _ => panic!("Expected UninitializedStorage error"),
    }
}

#[test]
fn prg_keychain_test_update_and_persistent_storage() {
    let lambda = 16;
    let storage = DefaultStorage::new(KeyChainType::PrgKeyChain);
    let mut keychain = PrgKeyChain::new(lambda, Some(true), Some(storage)).unwrap();

    let initial_state = keychain
        .key_chain_instantiate(&sample_seed(lambda))
        .unwrap();

    let (new_state, random_output) = keychain
        .key_chain_update(&sample_seed(lambda), &initial_state)
        .unwrap();

    assert_eq!(new_state.len(), lambda);
    assert_eq!(random_output.len(), lambda);

    // Check that state is stored in storage
    let fetched_state = keychain
        .storage
        .as_ref()
        .unwrap()
        .fetch_prg_keychain_state(lambda)
        .unwrap();
    assert_eq!(fetched_state, new_state);
}

#[test]
fn prg_keychain_test_update_non_persistent_storage() {
    let lambda = 16;
    let mut keychain = PrgKeyChain::<DefaultStorage>::new(lambda, Some(false), None).unwrap();
    let initial_state = keychain
        .key_chain_instantiate(&sample_seed(lambda))
        .unwrap();

    let (new_state, random_output) = keychain
        .key_chain_update(&sample_seed(lambda), &initial_state)
        .unwrap();

    assert_eq!(new_state.len(), lambda);
    assert_eq!(random_output.len(), lambda);
}

#[test]
fn prg_keychain_test_storage_fetch_error() {
    let storage = DefaultStorage::new(KeyChainType::PrgKeyChain);
    let err = storage.fetch_prg_keychain_state(42).unwrap_err();
    match err {
        Errors::NoStoredState(msg) => assert!(msg.contains("No Prg state found")),
        _ => panic!("Expected NoStoredState error"),
    }
}
