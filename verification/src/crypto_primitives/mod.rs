pub mod hkdf_wrap_ops;
pub mod prg_ops;
pub mod utils;
pub mod xdrbg_ops;
