use key_chains::crypto_primitives::prg_ops::Prg;
use key_chains::errors::Errors;

fn gen_key(len: usize) -> Vec<u8> {
    // Generate a repeating key pattern for tests
    (0..len).map(|i| (i % 256) as u8).collect()
}

#[test]
fn test_prg_next_with_valid_keys() {
    let prg = Prg::default();

    for key_len in [16, 24, 32] {
        let key = gen_key(key_len);
        let result = prg.prg_next(&key);
        assert!(result.is_ok(), "prg_next failed for key length {}", key_len);

        let (output, new_state) = result.unwrap();
        assert_eq!(output.len(), prg.security_param_lambda);
        assert_eq!(new_state.len(), prg.security_param_lambda);
    }
}

#[test]
fn test_prg_refresh_with_valid_keys() {
    let prg = Prg::default();

    for key_len in [16, 24, 32] {
        let key = gen_key(key_len);
        let param = gen_key(key_len); // same length for XOR

        let result = prg.prg_refresh(&key, &param);
        assert!(
            result.is_ok(),
            "prg_refresh failed for key length {}",
            key_len
        );

        let refreshed = result.unwrap();
        assert_eq!(refreshed.len(), prg.security_param_lambda);
    }
}

#[test]
fn test_invalid_key_length() {
    let prg = Prg::default();
    let invalid_keys = vec![
        vec![],        // 0 bytes
        vec![0u8; 15], // 15 bytes
        vec![0u8; 17], // 17 bytes
        vec![0u8; 31], // 31 bytes
        vec![0u8; 33], // 33 bytes
    ];

    for key in invalid_keys {
        let result = prg.prg_next(&key);
        assert!(matches!(result, Err(Errors::InvalidInputKeyLength(_))));

        // Use dummy extracted param of same size
        let extracted = vec![1u8; key.len()];
        let refresh_result = prg.prg_refresh(&key, &extracted);
        assert!(matches!(
            refresh_result,
            Err(Errors::InvalidInputKeyLength(_))
        ));
    }
}

#[test]
fn test_prg_refresh_with_mismatched_lengths() {
    let prg = Prg::default();
    let state = gen_key(16);
    let param = gen_key(24); // mismatched

    let result = prg.prg_refresh(&state, &param);
    assert!(matches!(
        result,
        Err(Errors::InvalidInputKeyLength(_)) | Err(Errors::XORLengthMismatch(_))
    ));
}

#[test]
fn test_output_types_mismatch_handling() {
    // Test ensures prg_next and prg_refresh don't accidentally interpret wrong output types
    // We force the check via mock or by testing indirect path

    let prg = Prg::default();
    let key = gen_key(16);

    let refresh_result = prg.clone().prg_refresh(&key, &vec![0u8; 16]);
    assert!(refresh_result.is_ok());

    let next_result = prg.clone().prg_next(&key);
    assert!(next_result.is_ok());
}

#[test]
fn test_repeatability_with_same_key() {
    let prg = Prg::default();
    let key = gen_key(16);

    let (out1, state1) = prg.clone().prg_next(&key).unwrap();
    let (out2, state2) = prg.clone().prg_next(&key).unwrap();

    // PRG is deterministic — same input key should give same output
    assert_eq!(out1, out2);
    assert_eq!(state1, state2);
}

#[test]
fn test_refresh_changes_state() {
    let prg = Prg::default();
    let key = gen_key(16);
    let param = gen_key(16);

    let refreshed = prg.clone().prg_refresh(&key, &param).unwrap();
    assert_ne!(refreshed, key); // Output should not be equal to input key
}
