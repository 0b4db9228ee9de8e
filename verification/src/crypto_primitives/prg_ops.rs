//! A two-step pseudorandom generator (refresh / next) built on a block
//! cipher in counter mode.
//!
//! Barak, Boaz, and Shai Halevi. "A model and architecture for pseudo-random
//! generation with applications to /dev/random." Proceedings of the 12th ACM
//! conference on Computer and communications security, 2005.

use vstd::prelude::*;

use crate::crypto_primitives::utils::{xor_bytes, xor_spec};
use crate::errors::Errors;
use ctr::cipher::{KeyIvInit, StreamCipher};

verus! {

/// The two roles a counter-mode invocation can play.
#[derive(Clone, Copy, Debug, PartialEq, Eq, Structural)]
pub enum Steps {
    Refresh,
    Next,
}

/// The output of one counter-mode invocation, tagged with the step that
/// produced it.
#[derive(Clone)]
pub enum PrgOutput {
    Refresh(Vec<u8>),
    Next(Vec<u8>, Vec<u8>),
}

/// A pseudorandom generator parameterised by its security parameter: states
/// and outputs are `security_param_lambda` bytes each.
#[derive(Clone, Copy)]
pub struct Prg {
    pub security_param_lambda: usize,
}

/// Whether a byte count is a supported cipher key length (16, 24 or 32).
pub open spec fn valid_key_len_spec(n: nat) -> bool {
    n == 16 || n == 24 || n == 32
}

/// The initial counter block of the refresh step: a fixed 96-bit nonce
/// followed by a 32-bit counter starting at 1.
pub open spec fn refresh_iv_spec() -> Seq<u8> {
    seq![
        0x96u8, 0x0du8, 0x0du8, 0x0du8, 0x0du8, 0x0du8, 0x0du8, 0x0du8, 0x0du8, 0x0du8, 0x0du8,
        0x0du8, 0u8, 0u8, 0u8, 1u8,
    ]
}

/// The initial counter block of the next step: a fixed 96-bit nonce, distinct
/// from the refresh nonce, followed by a 32-bit counter starting at 1.
pub open spec fn next_iv_spec() -> Seq<u8> {
    seq![
        0x96u8, 0x0au8, 0x0au8, 0x0au8, 0x0au8, 0x0au8, 0x0au8, 0x0au8, 0x0au8, 0x0au8, 0x0au8,
        0x0au8, 0u8, 0u8, 0u8, 1u8,
    ]
}

/// The initial counter block used by the given step.
pub open spec fn iv_spec(step: Steps) -> Seq<u8> {
    match step {
        Steps::Refresh => refresh_iv_spec(),
        Steps::Next => next_iv_spec(),
    }
}

/// The keystream of AES-128 in counter mode for a key and initial counter
/// block, taken over an all-zero plaintext of the given length.
pub uninterp spec fn aes128_ctr_keystream(key: Seq<u8>, iv: Seq<u8>, out_len: nat) -> Seq<u8>;

/// The keystream of AES-192 in counter mode for a key and initial counter
/// block, taken over an all-zero plaintext of the given length.
pub uninterp spec fn aes192_ctr_keystream(key: Seq<u8>, iv: Seq<u8>, out_len: nat) -> Seq<u8>;

/// The keystream of AES-256 in counter mode for a key and initial counter
/// block, taken over an all-zero plaintext of the given length.
pub uninterp spec fn aes256_ctr_keystream(key: Seq<u8>, iv: Seq<u8>, out_len: nat) -> Seq<u8>;

/// The counter-mode keystream under the cipher variant selected by the key
/// length (meaningful for key lengths 16, 24 and 32).
pub open spec fn ctr_keystream_spec(key: Seq<u8>, iv: Seq<u8>, out_len: nat) -> Seq<u8> {
    if key.len() == 16 {
        aes128_ctr_keystream(key, iv, out_len)
    } else if key.len() == 24 {
        aes192_ctr_keystream(key, iv, out_len)
    } else {
        aes256_ctr_keystream(key, iv, out_len)
    }
}

/// The refreshed state: the first `lambda` bytes of keystream under the
/// refresh nonce, keyed by the XOR of the current state and the extracted
/// parameter.
pub open spec fn prg_refresh_spec(lambda: nat, state: Seq<u8>, param: Seq<u8>) -> Seq<u8> {
    ctr_keystream_spec(xor_spec(state, param), refresh_iv_spec(), 2 * lambda).take(lambda as int)
}

/// The random output of the next step: the first `lambda` bytes of keystream
/// under the next nonce, keyed by the current state.
pub open spec fn prg_next_output_spec(lambda: nat, state: Seq<u8>) -> Seq<u8> {
    ctr_keystream_spec(state, next_iv_spec(), 2 * lambda).take(lambda as int)
}

/// The new state of the next step: the second `lambda` bytes of the same
/// keystream.
pub open spec fn prg_next_state_spec(lambda: nat, state: Seq<u8>) -> Seq<u8> {
    ctr_keystream_spec(state, next_iv_spec(), 2 * lambda).skip(lambda as int)
}

/// Relies on ctr's `Ctr128LE::<Aes128>` (`new_from_slices`, then
/// `apply_keystream` over an all-zero buffer): the keystream is a function
/// of the key and the initial counter block alone.
#[verifier::external_body]
fn aes128_ctr_fill(key: &[u8], iv: &[u8], out_len: usize) -> (r: Vec<u8>)
    requires
        key@.len() == 16,
        iv@.len() == 16,
    ensures
        r@ == aes128_ctr_keystream(key@, iv@, out_len as nat),
        r@.len() == out_len,
{
    let mut buffer = vec![0u8; out_len];
    let mut cipher = ctr::Ctr128LE::<aes::Aes128>::new_from_slices(key, iv)
        .expect("the key and counter block lengths were checked");
    cipher.apply_keystream(&mut buffer);
    buffer
}

/// Relies on ctr's `Ctr128LE::<Aes192>` (`new_from_slices`, then
/// `apply_keystream` over an all-zero buffer): the keystream is a function
/// of the key and the initial counter block alone.
#[verifier::external_body]
fn aes192_ctr_fill(key: &[u8], iv: &[u8], out_len: usize) -> (r: Vec<u8>)
    requires
        key@.len() == 24,
        iv@.len() == 16,
    ensures
        r@ == aes192_ctr_keystream(key@, iv@, out_len as nat),
        r@.len() == out_len,
{
    let mut buffer = vec![0u8; out_len];
    let mut cipher = ctr::Ctr128LE::<aes::Aes192>::new_from_slices(key, iv)
        .expect("the key and counter block lengths were checked");
    cipher.apply_keystream(&mut buffer);
    buffer
}

/// Relies on ctr's `Ctr128LE::<Aes256>` (`new_from_slices`, then
/// `apply_keystream` over an all-zero buffer): the keystream is a function
/// of the key and the initial counter block alone.
#[verifier::external_body]
fn aes256_ctr_fill(key: &[u8], iv: &[u8], out_len: usize) -> (r: Vec<u8>)
    requires
        key@.len() == 32,
        iv@.len() == 16,
    ensures
        r@ == aes256_ctr_keystream(key@, iv@, out_len as nat),
        r@.len() == out_len,
{
    let mut buffer = vec![0u8; out_len];
    let mut cipher = ctr::Ctr128LE::<aes::Aes256>::new_from_slices(key, iv)
        .expect("the key and counter block lengths were checked");
    cipher.apply_keystream(&mut buffer);
    buffer
}

/// Builds the initial counter block of the given step.
fn make_iv(step: Steps) -> (iv: Vec<u8>)
    ensures
        iv@ == iv_spec(step),
        iv@.len() == 16,
{
    let nonce_byte: u8 = match step {
        Steps::Refresh => 0x0d,
        Steps::Next => 0x0a,
    };
    let mut iv: Vec<u8> = Vec::new();
    iv.push(0x96u8);
    let mut i: usize = 0;
    while i < 11
        invariant
            i <= 11,
            iv@.len() == 1 + i,
            iv@[0] == 0x96u8,
            forall|j: int| 1 <= j < iv@.len() ==> iv@[j] == nonce_byte,
            nonce_byte == (if step is Refresh { 0x0du8 } else { 0x0au8 }),
        decreases 11 - i,
    {
        iv.push(nonce_byte);
        i = i + 1;
    }
    iv.push(0u8);
    iv.push(0u8);
    iv.push(0u8);
    iv.push(1u8);
    proof {
        assert(iv@ =~= iv_spec(step));
    }
    iv
}

impl Default for Prg {
    /// The default instance uses a security parameter of 16 bytes.
    fn default() -> (r: Self)
        ensures
            r.security_param_lambda == 16,
    {
        Self { security_param_lambda: 16 }
    }
}

impl Prg {
    /// Whether the security parameter is small enough for a double-length
    /// keystream request to fit in a machine word.
    pub open spec fn wf(self) -> bool {
        2 * self.security_param_lambda <= usize::MAX
    }

    /// A generator for the chosen security parameter.
    pub fn new(security_param_lambda: usize) -> (r: Self)
        requires
            2 * security_param_lambda <= usize::MAX,
        ensures
            r.security_param_lambda == security_param_lambda,
            r.wf(),
    {
        Self { security_param_lambda }
    }

    /// Absorbs fresh entropy: XORs the extracted parameter into the current
    /// state and returns the first `security_param_lambda` keystream bytes
    /// under the refresh nonce, keyed by the XOR.
    pub fn prg_refresh(
        self,
        current_prg_state: &[u8],
        extracted_parameter: &[u8],
    ) -> (r: Result<Vec<u8>, Errors>)
        requires
            self.wf(),
        ensures
            current_prg_state@.len() != extracted_parameter@.len() ==> (r matches Err(e)
                && e matches Errors::XORLengthMismatch(_)),
            current_prg_state@.len() == extracted_parameter@.len()
                && !valid_key_len_spec(current_prg_state@.len()) ==> (r matches Err(e)
                && e matches Errors::InvalidInputKeyLength(_)),
            current_prg_state@.len() == extracted_parameter@.len()
                && valid_key_len_spec(current_prg_state@.len()) ==> (r matches Ok(new_state)
                && new_state@ == prg_refresh_spec(
                    self.security_param_lambda as nat,
                    current_prg_state@,
                    extracted_parameter@,
                )
                && new_state@.len() == self.security_param_lambda),
    {
        let xored_value: Vec<u8> = match self.xor_bytes(current_prg_state, extracted_parameter) {
            Ok(output) => output,
            Err(err) => {
                return Err(err);
            },
        };

        let prg_state_after_refreshing: Vec<u8> = match self.aes_in_counter_mode_as_prg(
            xored_value.as_slice(),
            Steps::Refresh,
        ) {
            Ok(PrgOutput::Refresh(output)) => output,
            Ok(PrgOutput::Next(_, _)) => {
                return Err(Errors::UnexpectedOutputType(String::from_str(
                    "Received an output of the next step during refreshing.",
                )));
            },
            Err(err) => {
                return Err(err);
            },
        };

        Ok(prg_state_after_refreshing)
    }

    /// Emits output: splits a double-length keystream under the next nonce,
    /// keyed by the current state, into a random output and a new state of
    /// `security_param_lambda` bytes each.
    pub fn prg_next(self, current_prg_state: &[u8]) -> (r: Result<(Vec<u8>, Vec<u8>), Errors>)
        requires
            self.wf(),
        ensures
            !valid_key_len_spec(current_prg_state@.len()) ==> (r matches Err(e)
                && e matches Errors::InvalidInputKeyLength(_)),
            valid_key_len_spec(current_prg_state@.len()) ==> (r matches Ok(pair)
                && pair.0@ == prg_next_output_spec(
                    self.security_param_lambda as nat,
                    current_prg_state@,
                )
                && pair.1@ == prg_next_state_spec(
                    self.security_param_lambda as nat,
                    current_prg_state@,
                )
                && pair.0@.len() == self.security_param_lambda
                && pair.1@.len() == self.security_param_lambda),
    {
        let (random_output, new_state) = match self.aes_in_counter_mode_as_prg(
            current_prg_state,
            Steps::Next,
        ) {
            Ok(PrgOutput::Refresh(_)) => {
                return Err(Errors::UnexpectedOutputType(String::from_str(
                    "Received an output of the refresh step during the next step.",
                )));
            },
            Ok(PrgOutput::Next(random_output, new_prg_state)) => (random_output, new_prg_state),
            Err(err) => {
                return Err(err);
            },
        };

        Ok((random_output, new_state))
    }

    /// Runs the cipher in counter mode as a pseudorandom generator: a
    /// double-length keystream under the step's nonce, keyed by `input_key`,
    /// split as the step requires.
    fn aes_in_counter_mode_as_prg(self, input_key: &[u8], step: Steps) -> (r: Result<
        PrgOutput,
        Errors,
    >)
        requires
            self.wf(),
        ensures
            !valid_key_len_spec(input_key@.len()) ==> (r matches Err(e)
                && e matches Errors::InvalidInputKeyLength(_)),
            valid_key_len_spec(input_key@.len()) && step is Refresh ==> (r matches Ok(out)
                && out matches PrgOutput::Refresh(state)
                && state@ == ctr_keystream_spec(
                    input_key@,
                    refresh_iv_spec(),
                    2 * self.security_param_lambda as nat,
                ).take(self.security_param_lambda as int)
                && state@.len() == self.security_param_lambda),
            valid_key_len_spec(input_key@.len()) && step is Next ==> (r matches Ok(out)
                && out matches PrgOutput::Next(random_output, new_state)
                && random_output@ == prg_next_output_spec(
                    self.security_param_lambda as nat,
                    input_key@,
                )
                && new_state@ == prg_next_state_spec(
                    self.security_param_lambda as nat,
                    input_key@,
                )
                && random_output@.len() == self.security_param_lambda
                && new_state@.len() == self.security_param_lambda),
    {
        if !(input_key.len() == 16 || input_key.len() == 24 || input_key.len() == 32) {
            return Err(Errors::InvalidInputKeyLength(String::from_str(
                "Acceptable key sizes are 16, 24 or 32 bytes.",
            )));
        }

        let iv: Vec<u8> = make_iv(step);
        let total_length: usize = 2 * self.security_param_lambda;

        let ciphertext: Vec<u8> = if input_key.len() == 16 {
            aes128_ctr_fill(input_key, iv.as_slice(), total_length)
        } else if input_key.len() == 24 {
            aes192_ctr_fill(input_key, iv.as_slice(), total_length)
        } else {
            aes256_ctr_fill(input_key, iv.as_slice(), total_length)
        };

        match step {
            Steps::Refresh => {
                let mut pseudorandom_output = ciphertext;
                pseudorandom_output.truncate(self.security_param_lambda);
                Ok(PrgOutput::Refresh(pseudorandom_output))
            },
            Steps::Next => {
                let mut random_output = ciphertext;
                let new_prg_state: Vec<u8> = random_output.split_off(self.security_param_lambda);
                Ok(PrgOutput::Next(random_output, new_prg_state))
            },
        }
    }

    /// XORs two byte slices of equal length; unequal lengths are rejected.
    fn xor_bytes(self, param_1: &[u8], param_2: &[u8]) -> (r: Result<Vec<u8>, Errors>)
        ensures
            param_1@.len() == param_2@.len() ==> (r matches Ok(v) && v@ == xor_spec(
                param_1@,
                param_2@,
            )),
            param_1@.len() != param_2@.len() ==> (r matches Err(e)
                && e matches Errors::XORLengthMismatch(_)),
    {
        xor_bytes(param_1, param_2)
    }
}

} // verus!
