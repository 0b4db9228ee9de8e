//! HKDF (extract-then-expand key derivation) over a selectable hash function.
//!
//! Krawczyk, Hugo. "Cryptographic extraction and key derivation: The HKDF
//! scheme." Annual Cryptology Conference, 2010.

use vstd::prelude::*;

use crate::crypto_primitives::utils::{zero_bytes, zero_bytes_spec};
use crate::errors::Errors;
use hkdf::Hkdf;
use sha2::{Sha256, Sha512};
use sha3::{Sha3_256, Sha3_512};

verus! {

/// The hash function variants an HKDF key chain can be configured with.
#[derive(Clone, Copy, Debug, PartialEq, Eq, Structural)]
pub enum HashFunc {
    Sha256,
    Sha512,
    Sha3_256,
    Sha3_512,
}

/// Digest size of a hash function variant, in bytes.
pub open spec fn digest_size_spec(hash_func: HashFunc) -> nat {
    match hash_func {
        HashFunc::Sha256 => 32,
        HashFunc::Sha512 => 64,
        HashFunc::Sha3_256 => 32,
        HashFunc::Sha3_512 => 64,
    }
}

/// The pseudorandom key that HKDF-Extract with SHA-256 derives from a salt
/// and input key material.
pub uninterp spec fn hkdf_extract_sha256(salt: Seq<u8>, ikm: Seq<u8>) -> Seq<u8>;

/// The pseudorandom key that HKDF-Extract with SHA-512 derives from a salt
/// and input key material.
pub uninterp spec fn hkdf_extract_sha512(salt: Seq<u8>, ikm: Seq<u8>) -> Seq<u8>;

/// The pseudorandom key that HKDF-Extract with SHA3-256 derives from a salt
/// and input key material.
pub uninterp spec fn hkdf_extract_sha3_256(salt: Seq<u8>, ikm: Seq<u8>) -> Seq<u8>;

/// The pseudorandom key that HKDF-Extract with SHA3-512 derives from a salt
/// and input key material.
pub uninterp spec fn hkdf_extract_sha3_512(salt: Seq<u8>, ikm: Seq<u8>) -> Seq<u8>;

/// The output that HKDF-Expand with SHA-256 stretches a pseudorandom key to,
/// bound to an info string, for a requested length.
pub uninterp spec fn hkdf_expand_sha256(prk: Seq<u8>, info: Seq<u8>, out_len: nat) -> Seq<u8>;

/// The output that HKDF-Expand with SHA-512 stretches a pseudorandom key to,
/// bound to an info string, for a requested length.
pub uninterp spec fn hkdf_expand_sha512(prk: Seq<u8>, info: Seq<u8>, out_len: nat) -> Seq<u8>;

/// The output that HKDF-Expand with SHA3-256 stretches a pseudorandom key to,
/// bound to an info string, for a requested length.
pub uninterp spec fn hkdf_expand_sha3_256(prk: Seq<u8>, info: Seq<u8>, out_len: nat) -> Seq<u8>;

/// The output that HKDF-Expand with SHA3-512 stretches a pseudorandom key to,
/// bound to an info string, for a requested length.
pub uninterp spec fn hkdf_expand_sha3_512(prk: Seq<u8>, info: Seq<u8>, out_len: nat) -> Seq<u8>;

/// The pseudorandom key of HKDF-Extract under the chosen hash function.
pub open spec fn hkdf_extract_spec(hash_func: HashFunc, salt: Seq<u8>, ikm: Seq<u8>) -> Seq<u8> {
    match hash_func {
        HashFunc::Sha256 => hkdf_extract_sha256(salt, ikm),
        HashFunc::Sha512 => hkdf_extract_sha512(salt, ikm),
        HashFunc::Sha3_256 => hkdf_extract_sha3_256(salt, ikm),
        HashFunc::Sha3_512 => hkdf_extract_sha3_512(salt, ikm),
    }
}

/// The output of HKDF-Expand under the chosen hash function.
pub open spec fn hkdf_expand_spec(
    hash_func: HashFunc,
    prk: Seq<u8>,
    info: Seq<u8>,
    out_len: nat,
) -> Seq<u8> {
    match hash_func {
        HashFunc::Sha256 => hkdf_expand_sha256(prk, info, out_len),
        HashFunc::Sha512 => hkdf_expand_sha512(prk, info, out_len),
        HashFunc::Sha3_256 => hkdf_expand_sha3_256(prk, info, out_len),
        HashFunc::Sha3_512 => hkdf_expand_sha3_512(prk, info, out_len),
    }
}

/// Whether an optional salt respects the digest-size bound.
pub open spec fn salt_ok_spec(hash_func: HashFunc, salt: Option<Vec<u8>>) -> bool {
    match salt {
        Some(v) => v@.len() <= digest_size_spec(hash_func),
        None => true,
    }
}

/// The salt actually used by extraction: the provided one, or the all-zero
/// default of digest size.
pub open spec fn salt_or_default_spec(hash_func: HashFunc, salt: Option<Vec<u8>>) -> Seq<u8> {
    match salt {
        Some(v) => v@,
        None => zero_bytes_spec(digest_size_spec(hash_func)),
    }
}

/// An optional info string, defaulting to the empty sequence.
pub open spec fn info_or_empty_spec(info: Option<Vec<u8>>) -> Seq<u8> {
    match info {
        Some(v) => v@,
        None => Seq::empty(),
    }
}

/// Relies on hkdf's `Hkdf::<Sha256>::extract`: the pseudorandom key is a
/// function of salt and input key material alone, of digest length.
#[verifier::external_body]
fn extract_sha256(salt: &[u8], ikm: &[u8]) -> (r: Vec<u8>)
    ensures
        r@ == hkdf_extract_sha256(salt@, ikm@),
        r@.len() == 32,
{
    let (prk, _) = Hkdf::<Sha256>::extract(Some(salt), ikm);
    prk.to_vec()
}

/// Relies on hkdf's `Hkdf::<Sha512>::extract`: the pseudorandom key is a
/// function of salt and input key material alone, of digest length.
#[verifier::external_body]
fn extract_sha512(salt: &[u8], ikm: &[u8]) -> (r: Vec<u8>)
    ensures
        r@ == hkdf_extract_sha512(salt@, ikm@),
        r@.len() == 64,
{
    let (prk, _) = Hkdf::<Sha512>::extract(Some(salt), ikm);
    prk.to_vec()
}

/// Relies on hkdf's `Hkdf::<Sha3_256>::extract`: the pseudorandom key is a
/// function of salt and input key material alone, of digest length.
#[verifier::external_body]
fn extract_sha3_256(salt: &[u8], ikm: &[u8]) -> (r: Vec<u8>)
    ensures
        r@ == hkdf_extract_sha3_256(salt@, ikm@),
        r@.len() == 32,
{
    let (prk, _) = Hkdf::<Sha3_256>::extract(Some(salt), ikm);
    prk.to_vec()
}

/// Relies on hkdf's `Hkdf::<Sha3_512>::extract`: the pseudorandom key is a
/// function of salt and input key material alone, of digest length.
#[verifier::external_body]
fn extract_sha3_512(salt: &[u8], ikm: &[u8]) -> (r: Vec<u8>)
    ensures
        r@ == hkdf_extract_sha3_512(salt@, ikm@),
        r@.len() == 64,
{
    let (prk, _) = Hkdf::<Sha3_512>::extract(Some(salt), ikm);
    prk.to_vec()
}

/// Relies on hkdf's `Hkdf::<Sha256>::from_prk` and `expand`: the output is a
/// function of the pseudorandom key, the info string and the requested
/// length alone. `from_prk` rejects keys shorter than the digest and
/// `expand` rejects lengths over 255 digests, so both are excluded here.
#[verifier::external_body]
fn expand_sha256(prk: &[u8], info: &[u8], out_len: usize) -> (r: Vec<u8>)
    requires
        32 <= prk@.len(),
        out_len <= 255 * 32,
    ensures
        r@ == hkdf_expand_sha256(prk@, info@, out_len as nat),
        r@.len() == out_len,
{
    let mut okm = vec![0u8; out_len];
    let hkdf_inst = Hkdf::<Sha256>::from_prk(prk).expect("the key length was checked");
    hkdf_inst.expand(info, &mut okm).expect("the output length was checked");
    okm
}

/// Relies on hkdf's `Hkdf::<Sha512>::from_prk` and `expand`: the output is a
/// function of the pseudorandom key, the info string and the requested
/// length alone. `from_prk` rejects keys shorter than the digest and
/// `expand` rejects lengths over 255 digests, so both are excluded here.
#[verifier::external_body]
fn expand_sha512(prk: &[u8], info: &[u8], out_len: usize) -> (r: Vec<u8>)
    requires
        64 <= prk@.len(),
        out_len <= 255 * 64,
    ensures
        r@ == hkdf_expand_sha512(prk@, info@, out_len as nat),
        r@.len() == out_len,
{
    let mut okm = vec![0u8; out_len];
    let hkdf_inst = Hkdf::<Sha512>::from_prk(prk).expect("the key length was checked");
    hkdf_inst.expand(info, &mut okm).expect("the output length was checked");
    okm
}

/// Relies on hkdf's `Hkdf::<Sha3_256>::from_prk` and `expand`: the output is
/// a function of the pseudorandom key, the info string and the requested
/// length alone. `from_prk` rejects keys shorter than the digest and
/// `expand` rejects lengths over 255 digests, so both are excluded here.
#[verifier::external_body]
fn expand_sha3_256(prk: &[u8], info: &[u8], out_len: usize) -> (r: Vec<u8>)
    requires
        32 <= prk@.len(),
        out_len <= 255 * 32,
    ensures
        r@ == hkdf_expand_sha3_256(prk@, info@, out_len as nat),
        r@.len() == out_len,
{
    let mut okm = vec![0u8; out_len];
    let hkdf_inst = Hkdf::<Sha3_256>::from_prk(prk).expect("the key length was checked");
    hkdf_inst.expand(info, &mut okm).expect("the output length was checked");
    okm
}

/// Relies on hkdf's `Hkdf::<Sha3_512>::from_prk` and `expand`: the output is
/// a function of the pseudorandom key, the info string and the requested
/// length alone. `from_prk` rejects keys shorter than the digest and
/// `expand` rejects lengths over 255 digests, so both are excluded here.
#[verifier::external_body]
fn expand_sha3_512(prk: &[u8], info: &[u8], out_len: usize) -> (r: Vec<u8>)
    requires
        64 <= prk@.len(),
        out_len <= 255 * 64,
    ensures
        r@ == hkdf_expand_sha3_512(prk@, info@, out_len as nat),
        r@.len() == out_len,
{
    let mut okm = vec![0u8; out_len];
    let hkdf_inst = Hkdf::<Sha3_512>::from_prk(prk).expect("the key length was checked");
    hkdf_inst.expand(info, &mut okm).expect("the output length was checked");
    okm
}

impl HashFunc {
    /// Digest size of this hash function variant, in bytes.
    pub fn output_size(&self) -> (n: usize)
        ensures
            n == digest_size_spec(*self),
    {
        match self {
            HashFunc::Sha256 => 32,
            HashFunc::Sha512 => 64,
            HashFunc::Sha3_256 => 32,
            HashFunc::Sha3_512 => 64,
        }
    }

    /// Validates an optional salt against the digest-size bound, substituting
    /// the all-zero default of digest size when none is given.
    pub fn check_and_get_salt(&self, extractor_salt: Option<Vec<u8>>) -> (r: Result<Vec<u8>, Errors>)
        ensures
            salt_ok_spec(*self, extractor_salt) ==> (r matches Ok(salt)
                && salt@ == salt_or_default_spec(*self, extractor_salt)),
            !salt_ok_spec(*self, extractor_salt) ==> (r matches Err(e)
                && e matches Errors::InvalidLength(_)),
    {
        let digest_size: usize = self.output_size();
        match extractor_salt {
            Some(val) => {
                if val.len() > digest_size {
                    Err(Errors::InvalidLength(String::from_str(
                        "The provided salt is longer than the digest of the chosen hash function.",
                    )))
                } else {
                    Ok(val)
                }
            },
            None => Ok(zero_bytes(digest_size)),
        }
    }

    /// Checks the HKDF-Expand hard limit: at most 255 digests of output.
    pub fn is_output_length_okay(&self, total_output_length: usize) -> (r: Result<(), Errors>)
        ensures
            total_output_length <= 255 * digest_size_spec(*self) ==> r is Ok,
            total_output_length > 255 * digest_size_spec(*self) ==> (r matches Err(e)
                && e matches Errors::InvalidLength(_)),
    {
        if total_output_length > 255 * self.output_size() {
            Err(Errors::InvalidLength(String::from_str(
                "The requested total output exceeds 255 digests of the chosen hash function.",
            )))
        } else {
            Ok(())
        }
    }
}

/// An HKDF instance bound to one hash function variant.
#[derive(Clone, Copy)]
pub struct HkdfWrap {
    pub hash_func: HashFunc,
}

impl Default for HkdfWrap {
    /// The default instance uses SHA-256.
    fn default() -> (r: Self)
        ensures
            r.hash_func == HashFunc::Sha256,
    {
        Self { hash_func: HashFunc::Sha256 }
    }
}

impl HkdfWrap {
    /// An HKDF instance for the chosen hash function.
    pub fn new(hash_func: HashFunc) -> (r: Self)
        ensures
            r.hash_func == hash_func,
    {
        Self { hash_func }
    }

    /// HKDF-Extract: compresses the source key material into a pseudorandom
    /// key of digest size, under the provided salt or the all-zero default.
    /// A salt longer than the digest is rejected.
    pub fn hkdf_extract(
        self,
        extractor_salt: Option<Vec<u8>>,
        source_key_material: &[u8],
    ) -> (r: Result<Vec<u8>, Errors>)
        ensures
            salt_ok_spec(self.hash_func, extractor_salt) ==> (r matches Ok(prk)
                && prk@ == hkdf_extract_spec(
                    self.hash_func,
                    salt_or_default_spec(self.hash_func, extractor_salt),
                    source_key_material@,
                )
                && prk@.len() == digest_size_spec(self.hash_func)),
            !salt_ok_spec(self.hash_func, extractor_salt) ==> (r matches Err(e)
                && e matches Errors::InvalidLength(_)),
    {
        let salt: Vec<u8> = match self.hash_func.check_and_get_salt(extractor_salt) {
            Ok(val) => val,
            Err(err) => {
                return Err(err);
            },
        };

        match self.hash_func {
            HashFunc::Sha256 => Ok(extract_sha256(salt.as_slice(), source_key_material)),
            HashFunc::Sha512 => Ok(extract_sha512(salt.as_slice(), source_key_material)),
            HashFunc::Sha3_256 => Ok(extract_sha3_256(salt.as_slice(), source_key_material)),
            HashFunc::Sha3_512 => Ok(extract_sha3_512(salt.as_slice(), source_key_material)),
        }
    }

    /// HKDF-Expand: stretches a pseudorandom key to the requested total
    /// length, bound to the info string (default empty). Lengths over
    /// 255 digests are rejected.
    pub fn hkdf_expand(
        self,
        pseudo_random_key: &[u8],
        info_param: Option<Vec<u8>>,
        total_output_length: usize,
    ) -> (r: Result<Vec<u8>, Errors>)
        requires
            digest_size_spec(self.hash_func) <= pseudo_random_key@.len(),
        ensures
            total_output_length <= 255 * digest_size_spec(self.hash_func) ==> (r matches Ok(okm)
                && okm@ == hkdf_expand_spec(
                    self.hash_func,
                    pseudo_random_key@,
                    info_or_empty_spec(info_param),
                    total_output_length as nat,
                )
                && okm@.len() == total_output_length),
            total_output_length > 255 * digest_size_spec(self.hash_func) ==> (r matches Err(e)
                && e matches Errors::InvalidLength(_)),
    {
        let info: Vec<u8> = match info_param {
            Some(val) => val,
            None => Vec::new(),
        };

        match self.hash_func.is_output_length_okay(total_output_length) {
            Ok(_) => match self.hash_func {
                HashFunc::Sha256 => Ok(expand_sha256(
                    pseudo_random_key,
                    info.as_slice(),
                    total_output_length,
                )),
                HashFunc::Sha512 => Ok(expand_sha512(
                    pseudo_random_key,
                    info.as_slice(),
                    total_output_length,
                )),
                HashFunc::Sha3_256 => Ok(expand_sha3_256(
                    pseudo_random_key,
                    info.as_slice(),
                    total_output_length,
                )),
                HashFunc::Sha3_512 => Ok(expand_sha3_512(
                    pseudo_random_key,
                    info.as_slice(),
                    total_output_length,
                )),
            },
            Err(err) => Err(err),
        }
    }
}

} // verus!
