pub mod hkdf_keychain;
pub mod prg_keychain;
pub mod storage_handler;
pub mod xdrbg_keychain;
