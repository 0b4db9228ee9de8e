//! Key-evolving pseudorandom generators ("key chains"): deterministic state
//! machines that, given a current secret state and fresh input, produce a new
//! secret state and a pseudorandom output.
//!
//! Three constructions share one `instantiate` / `update` contract: an
//! HKDF-based chain (extract-then-expand), a block-cipher counter-mode chain
//! (two-step refresh / next), and an XOF-based chain (XDRBG-style
//! instantiate / reseed / generate). A storage capability can persist the
//! latest state per algorithm identity.

pub mod crypto_primitives;
pub mod errors;
pub mod key_chains;

pub use crate::crypto_primitives::hkdf_wrap_ops::HashFunc;
pub use crate::crypto_primitives::xdrbg_ops::Xof;
