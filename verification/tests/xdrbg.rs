use key_chains::crypto_primitives::xdrbg_ops::{Xdrbg, XdrbgOps, Xof, MAX_LEN_ALPHA};

fn make_seed(len: usize) -> Vec<u8> {
    (0..len as u8).collect()
}

#[test]
fn test_state_size() {
    assert_eq!(Xof::Shake128.state_size(), 32);
    assert_eq!(Xof::Shake256.state_size(), 64);
    assert_eq!(Xof::Ascon.state_size(), 32);
}

#[test]
fn test_are_params_okay_valid() {
    let seed = make_seed(24);
    let alpha = vec![1, 2, 3];
    assert!(
        Xof::Shake128
            .are_params_okay(&seed, &alpha, XdrbgOps::Instantiate)
            .is_ok()
    );
}

#[test]
fn test_are_params_okay_invalid_seed() {
    let seed = make_seed(10); // too short
    let alpha = vec![];
    let res = Xof::Shake256.are_params_okay(&seed, &alpha, XdrbgOps::Instantiate);
    assert!(res.is_err());
}

#[test]
fn test_are_params_okay_invalid_alpha() {
    let seed = make_seed(24);
    let alpha = vec![0u8; MAX_LEN_ALPHA + 1]; // too long
    let res = Xof::Ascon.are_params_okay(&seed, &alpha, XdrbgOps::Instantiate);
    assert!(res.is_err());
}

#[test]
fn test_is_output_length_okay() {
    assert!(Xof::Shake128.is_output_length_okay(200).is_ok());
    assert!(Xof::Shake128.is_output_length_okay(1000).is_err());
}

#[test]
fn test_xdrbg_instantiate_success() {
    let xdrbg = Xdrbg::new(Xof::Shake128);
    let seed = make_seed(24);
    let result = xdrbg.xdrbg_instantiate(&seed, None);
    assert!(result.is_ok());
    let state = result.unwrap();
    assert_eq!(state.len(), xdrbg.xof.state_size());
}

#[test]
fn test_xdrbg_instantiate_fail() {
    let xdrbg = Xdrbg::new(Xof::Shake256);
    let seed = make_seed(10); // too short
    let result = xdrbg.xdrbg_instantiate(&seed, None);
    assert!(result.is_err());
}

#[test]
fn test_xdrbg_reseed_success() {
    let xdrbg = Xdrbg::new(Xof::Shake128);
    let seed = make_seed(24);
    let state = xdrbg.xdrbg_instantiate(&seed, None).unwrap();
    let reseeded = xdrbg.xdrbg_reseed(&state, &seed, None);
    assert!(reseeded.is_ok());
    assert_eq!(reseeded.unwrap().len(), xdrbg.xof.state_size());
}

#[test]
fn test_xdrbg_generate_success() {
    let xdrbg = Xdrbg::new(Xof::Shake128);
    let seed = make_seed(24);
    let state = xdrbg.xdrbg_instantiate(&seed, None).unwrap();
    let (new_state, output) = xdrbg.xdrbg_generate(&state, 64, None).unwrap();
    assert_eq!(new_state.len(), xdrbg.xof.state_size());
    assert_eq!(output.len(), 64);
}

#[test]
fn test_xdrbg_generate_fail_too_large_output() {
    let xdrbg = Xdrbg::new(Xof::Shake128);
    let seed = make_seed(24);
    let state = xdrbg.xdrbg_instantiate(&seed, None).unwrap();
    let result = xdrbg.xdrbg_generate(&state, 10_000, None);
    assert!(result.is_err());
}

#[test]
fn test_encode_functionality() {
    let xdrbg = Xdrbg::new(Xof::Ascon);
    let seed = make_seed(5);
    let alpha = vec![9, 9, 9];
    let encoded = xdrbg.encode(&seed, &alpha, 2);
    assert!(encoded.len() >= seed.len() + alpha.len());
    assert!(encoded.ends_with(&[(2 * 85 + 3) as u8]));
}
