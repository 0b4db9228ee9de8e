use key_chains::crypto_primitives::hkdf_wrap_ops::{HashFunc, HkdfWrap};
use key_chains::errors::Errors;

fn sample_input() -> Vec<u8> {
    b"example input key material".to_vec()
}

fn sample_salt(len: usize) -> Vec<u8> {
    vec![0x0b; len]
}

#[test]
fn test_extract_sha256_with_valid_salt() {
    let hkdf = HkdfWrap::new(HashFunc::Sha256);
    let salt = Some(sample_salt(32)); // SHA256 output size
    let ikm = sample_input();

    let result = hkdf.hkdf_extract(salt, &ikm);
    assert!(result.is_ok());
    assert_eq!(result.unwrap().len(), 32);
}

#[test]
fn test_extract_sha512_with_default_salt() {
    let hkdf = HkdfWrap::new(HashFunc::Sha512);
    let ikm = sample_input();

    let result = hkdf.hkdf_extract(None, &ikm);
    assert!(result.is_ok());
    assert_eq!(result.unwrap().len(), 64);
}

#[test]
fn test_extract_fails_with_invalid_salt_length() {
    let hkdf = HkdfWrap::new(HashFunc::Sha256);
    let ikm = sample_input();
    let long_salt = Some(sample_salt(64)); // longer than SHA256 output

    let result = hkdf.hkdf_extract(long_salt, &ikm);
    assert!(matches!(result, Err(Errors::InvalidLength(_))));
}

#[test]
fn test_expand_sha256_success() {
    let hkdf = HkdfWrap::new(HashFunc::Sha256);
    let ikm = sample_input();

    let prk = hkdf.hkdf_extract(None, &ikm).unwrap();
    let output = hkdf.hkdf_expand(&prk, None, 64);

    assert!(output.is_ok());
    assert_eq!(output.unwrap().len(), 64);
}

#[test]
fn test_expand_fails_with_excessive_output_length() {
    let hkdf = HkdfWrap::new(HashFunc::Sha3_256);
    let ikm = sample_input();

    let prk = hkdf.hkdf_extract(None, &ikm).unwrap();
    let result = hkdf.hkdf_expand(&prk, None, 255 * 32 + 1); // Just over the allowed limit

    assert!(matches!(result, Err(Errors::InvalidLength(_))));
}

#[test]
fn test_expand_with_info() {
    let hkdf = HkdfWrap::new(HashFunc::Sha3_512);
    let ikm = sample_input();
    let prk = hkdf.hkdf_extract(None, &ikm).unwrap();

    let info = Some(b"contextual-info".to_vec());
    let output = hkdf.hkdf_expand(&prk, info, 128);

    assert!(output.is_ok());
    assert_eq!(output.unwrap().len(), 128);
}

#[test]
fn test_extract_and_expand_sha3_256() {
    let hkdf = HkdfWrap::new(HashFunc::Sha3_256);
    let ikm = sample_input();
    let salt = Some(sample_salt(32));

    let prk = hkdf.hkdf_extract(salt, &ikm).unwrap();
    let output = hkdf.hkdf_expand(&prk, None, 64).unwrap();

    assert_eq!(output.len(), 64);
}

#[test]
fn test_default_hash_function_is_sha256() {
    let hkdf = HkdfWrap::default();
    let ikm = sample_input();

    let prk = hkdf.hkdf_extract(None, &ikm).unwrap();
    assert_eq!(prk.len(), 32);
}
