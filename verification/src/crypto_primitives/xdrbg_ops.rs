//! An XDRBG-style deterministic random bit generator built on an
//! extendable-output function (XOF).
//!
//! Kelsey, John, Stefan Lucks, and Stephan Müller. "XDRBG: A Proposed
//! Deterministic Random Bit Generator Based on Any XOF." IACR Transactions
//! on Symmetric Cryptology 2024.1 (2024): 5-34.

use vstd::prelude::*;

use crate::crypto_primitives::utils::{concat_bytes, extend_bytes};
use crate::errors::Errors;
use ascon_hash::ExtendableOutput as AsconExtendableOutput;
use ascon_hash::Update as AsconUpdate;
use ascon_hash::XofReader as AsconXofReader;
use sha3::digest::{ExtendableOutput, Update, XofReader};

verus! {

/// Maximum length of the domain-separation string "alpha", in bytes.
pub const MAX_LEN_ALPHA: usize = 84;

/// The operations an XDRBG domain-separates by its encoded operation code.
#[derive(Clone, Copy, Debug)]
pub enum XdrbgOps {
    Instantiate,
    Reseed,
}

/// The extendable-output function variants an XDRBG can be built on.
#[derive(Clone, Copy, Debug, PartialEq, Eq, Structural)]
pub enum Xof {
    Shake128,
    Shake256,
    Ascon,
}

/// State size of an XOF variant, in bytes.
pub open spec fn state_size_spec(xof: Xof) -> nat {
    match xof {
        Xof::Shake128 => 32,
        Xof::Shake256 => 64,
        Xof::Ascon => 32,
    }
}

/// Minimum seed length accepted by `instantiate`, in bytes.
pub open spec fn min_seed_size_instantiate_spec(xof: Xof) -> nat {
    match xof {
        Xof::Shake128 => 24,
        Xof::Shake256 => 48,
        Xof::Ascon => 24,
    }
}

/// Minimum seed length accepted by `reseed`, in bytes.
pub open spec fn min_seed_size_reseed_spec(xof: Xof) -> nat {
    match xof {
        Xof::Shake128 => 16,
        Xof::Shake256 => 32,
        Xof::Ascon => 16,
    }
}

/// Maximum combined output (requested output plus state) of one `generate`
/// call, in bytes.
pub open spec fn max_total_output_size_spec(xof: Xof) -> nat {
    match xof {
        Xof::Shake128 => 304,
        Xof::Shake256 => 344,
        Xof::Ascon => 256,
    }
}

/// Whether a seed is long enough for the given minimum.
pub open spec fn seed_ok_spec(seed: Seq<u8>, min_seed_len: nat) -> bool {
    seed.len() >= min_seed_len
}

/// Whether an alpha string respects its fixed maximum length.
pub open spec fn alpha_ok_spec(alpha: Seq<u8>) -> bool {
    alpha.len() <= MAX_LEN_ALPHA
}

/// Whether a requested output length respects the combined output bound.
pub open spec fn output_len_ok_spec(xof: Xof, output_key_length: nat) -> bool {
    output_key_length + state_size_spec(xof) <= max_total_output_size_spec(xof)
}

/// An optional alpha string, defaulting to the empty sequence.
pub open spec fn alpha_or_empty_spec(alpha: Option<Vec<u8>>) -> Seq<u8> {
    match alpha {
        Some(v) => v@,
        None => Seq::empty(),
    }
}

/// The minimal big-endian byte representation of a value: empty for zero,
/// otherwise the shortest run of base-256 digits.
pub open spec fn be_bytes_spec(value: nat) -> Seq<u8>
    decreases value,
{
    if value == 0 {
        Seq::empty()
    } else {
        be_bytes_spec(value / 256).push((value % 256) as u8)
    }
}

/// The encoded parameter trailer: one zero byte when the value is zero,
/// otherwise its minimal big-endian representation.
pub open spec fn encode_param_spec(value: nat) -> Seq<u8> {
    if value == 0 {
        seq![0u8]
    } else {
        be_bytes_spec(value)
    }
}

/// The domain-separating encoding fed to the XOF: the data, then alpha, then
/// the trailer for `op_code × 85 + len(alpha)`.
pub open spec fn encode_spec(data: Seq<u8>, alpha: Seq<u8>, op_code: nat) -> Seq<u8> {
    data + alpha + encode_param_spec(op_code * 85 + alpha.len())
}

/// The encoded parameter trailer of a value below 256 is that single byte.
proof fn lemma_encode_param_single_byte(value: nat)
    requires
        value <= 255,
    ensures
        encode_param_spec(value) =~= seq![value as u8],
{
    if value > 0 {
        assert(be_bytes_spec(value) =~= be_bytes_spec(value / 256).push((value % 256) as u8));
        assert(value / 256 == 0 && value % 256 == value);
    }
}

/// Law: the encoding domain-separates the operations — for one data and
/// alpha input, the encodings of two distinct operation codes (instantiate,
/// reseed, generate) differ, because the trailer pins down
/// `op_code × 85 + len(alpha)` and alpha never exceeds 84 bytes.
pub proof fn encode_domain_separates(data: Seq<u8>, alpha: Seq<u8>, op_one: nat, op_two: nat)
    requires
        alpha.len() <= MAX_LEN_ALPHA,
        op_one < 3,
        op_two < 3,
        op_one != op_two,
    ensures
        encode_spec(data, alpha, op_one) != encode_spec(data, alpha, op_two),
{
    let value_one = op_one * 85 + alpha.len();
    let value_two = op_two * 85 + alpha.len();
    lemma_encode_param_single_byte(value_one);
    lemma_encode_param_single_byte(value_two);
    assert(encode_spec(data, alpha, op_one).last() == value_one as u8);
    assert(encode_spec(data, alpha, op_two).last() == value_two as u8);
}

/// The XOF output of the requested length over an input.
pub open spec fn xof_output_spec(xof: Xof, input: Seq<u8>, out_len: nat) -> Seq<u8> {
    match xof {
        Xof::Shake128 => shake128_output(input, out_len),
        Xof::Shake256 => shake256_output(input, out_len),
        Xof::Ascon => ascon_xof_output(input, out_len),
    }
}

/// The output that SHAKE-128 produces for an input, at a requested length.
pub uninterp spec fn shake128_output(input: Seq<u8>, out_len: nat) -> Seq<u8>;

/// The output that SHAKE-256 produces for an input, at a requested length.
pub uninterp spec fn shake256_output(input: Seq<u8>, out_len: nat) -> Seq<u8>;

/// The output that the Ascon XOF produces for an input, at a requested
/// length.
pub uninterp spec fn ascon_xof_output(input: Seq<u8>, out_len: nat) -> Seq<u8>;

/// Relies on sha3's `Shake128` (`update`, `finalize_xof`, `read`): the
/// output is a function of the input and the requested length alone.
#[verifier::external_body]
fn shake128_fill(input: &[u8], out_len: usize) -> (r: Vec<u8>)
    ensures
        r@ == shake128_output(input@, out_len as nat),
        r@.len() == out_len,
{
    let mut xof_instance = sha3::Shake128::default();
    xof_instance.update(input);
    let mut xof_digest_reader = xof_instance.finalize_xof();
    let mut xof_output_buffer = vec![0u8; out_len];
    xof_digest_reader.read(&mut xof_output_buffer);
    xof_output_buffer
}

/// Relies on sha3's `Shake256` (`update`, `finalize_xof`, `read`): the
/// output is a function of the input and the requested length alone.
#[verifier::external_body]
fn shake256_fill(input: &[u8], out_len: usize) -> (r: Vec<u8>)
    ensures
        r@ == shake256_output(input@, out_len as nat),
        r@.len() == out_len,
{
    let mut xof_instance = sha3::Shake256::default();
    xof_instance.update(input);
    let mut xof_digest_reader = xof_instance.finalize_xof();
    let mut xof_output_buffer = vec![0u8; out_len];
    xof_digest_reader.read(&mut xof_output_buffer);
    xof_output_buffer
}

/// Relies on ascon_hash's `AsconXof128` (`update`, `finalize_xof`, `read`):
/// the output is a function of the input and the requested length alone.
#[verifier::external_body]
fn ascon_xof_fill(input: &[u8], out_len: usize) -> (r: Vec<u8>)
    ensures
        r@ == ascon_xof_output(input@, out_len as nat),
        r@.len() == out_len,
{
    let mut xof_instance = ascon_hash::AsconXof128::default();
    AsconUpdate::update(&mut xof_instance, input);
    let mut xof_digest_reader = AsconExtendableOutput::finalize_xof(xof_instance);
    let mut xof_output_buffer = vec![0u8; out_len];
    AsconXofReader::read(&mut xof_digest_reader, &mut xof_output_buffer);
    xof_output_buffer
}

impl Xof {
    /// State size of this XOF variant, in bytes.
    pub fn state_size(&self) -> (n: usize)
        ensures
            n == state_size_spec(*self),
    {
        match self {
            Xof::Shake128 => 32,
            Xof::Shake256 => 64,
            Xof::Ascon => 32,
        }
    }

    /// Validates seed and alpha for the given operation: the seed must reach
    /// the operation's minimum length and alpha must stay within its fixed
    /// maximum.
    pub fn are_params_okay(&self, seed: &[u8], alpha: &[u8], ops: XdrbgOps) -> (r: Result<
        (),
        Errors,
    >)
        ensures
            seed_ok_spec(seed@, min_seed_size_spec(*self, ops)) && alpha_ok_spec(alpha@) <==> r
                is Ok,
            r matches Err(e) ==> e matches Errors::InvalidLength(_),
    {
        match ops {
            XdrbgOps::Instantiate => {
                let min_seed_len: usize = self.min_seed_size_instantiate();
                self.check_size_of_seed(seed, min_seed_len)?;
                self.check_size_of_alpha(alpha)
            },
            XdrbgOps::Reseed => {
                let min_seed_len: usize = self.min_seed_size_reseed();
                self.check_size_of_seed(seed, min_seed_len)?;
                self.check_size_of_alpha(alpha)
            },
        }
    }

    /// Checks the combined output bound: the requested output plus the state
    /// must not exceed the variant's maximum total output.
    pub fn is_output_length_okay(&self, output_key_length: usize) -> (r: Result<(), Errors>)
        ensures
            output_len_ok_spec(*self, output_key_length as nat) <==> r is Ok,
            r matches Err(e) ==> e matches Errors::InvalidLength(_),
    {
        if output_key_length > self.max_total_output_size() - self.state_size() {
            Err(Errors::InvalidLength(String::from_str(
                "The requested output and the XOF state size together exceed the maximum total output of the chosen XOF.",
            )))
        } else {
            Ok(())
        }
    }

    /// Minimum seed length accepted by `instantiate`, in bytes.
    pub fn min_seed_size_instantiate(&self) -> (n: usize)
        ensures
            n == min_seed_size_instantiate_spec(*self),
    {
        match self {
            Xof::Shake128 => 24,
            Xof::Shake256 => 48,
            Xof::Ascon => 24,
        }
    }

    /// Minimum seed length accepted by `reseed`, in bytes.
    pub fn min_seed_size_reseed(&self) -> (n: usize)
        ensures
            n == min_seed_size_reseed_spec(*self),
    {
        match self {
            Xof::Shake128 => 16,
            Xof::Shake256 => 32,
            Xof::Ascon => 16,
        }
    }

    /// Maximum combined output of one `generate` call, in bytes.
    pub fn max_total_output_size(&self) -> (n: usize)
        ensures
            n == max_total_output_size_spec(*self),
    {
        match self {
            Xof::Shake128 => 304,
            Xof::Shake256 => 344,
            Xof::Ascon => 256,
        }
    }

    /// Rejects a seed shorter than the given minimum.
    fn check_size_of_seed(&self, seed: &[u8], min_seed_len: usize) -> (r: Result<(), Errors>)
        ensures
            seed_ok_spec(seed@, min_seed_len as nat) <==> r is Ok,
            r matches Err(e) ==> e matches Errors::InvalidLength(_),
    {
        if seed.len() < min_seed_len {
            return Err(Errors::InvalidLength(String::from_str(
                "The provided seed is shorter than the minimum seed length of the chosen XOF and operation.",
            )));
        }

        Ok(())
    }

    /// Rejects an alpha string longer than its fixed maximum.
    fn check_size_of_alpha(&self, alpha: &[u8]) -> (r: Result<(), Errors>)
        ensures
            alpha_ok_spec(alpha@) <==> r is Ok,
            r matches Err(e) ==> e matches Errors::InvalidLength(_),
    {
        if alpha.len() > MAX_LEN_ALPHA {
            return Err(Errors::InvalidLength(String::from_str(
                "The provided alpha exceeds its maximum length.",
            )));
        }

        Ok(())
    }
}

/// The minimum seed length of an operation.
pub open spec fn min_seed_size_spec(xof: Xof, ops: XdrbgOps) -> nat {
    match ops {
        XdrbgOps::Instantiate => min_seed_size_instantiate_spec(xof),
        XdrbgOps::Reseed => min_seed_size_reseed_spec(xof),
    }
}

/// An XDRBG instance bound to one XOF variant.
#[derive(Clone, Copy)]
pub struct Xdrbg {
    pub xof: Xof,
}

/// The minimal big-endian byte representation of a value (empty for zero).
fn be_bytes(value: usize) -> (r: Vec<u8>)
    ensures
        r@ == be_bytes_spec(value as nat),
    decreases value,
{
    if value == 0 {
        Vec::new()
    } else {
        proof {
            assert(value / 256 < value) by (nonlinear_arith)
                requires
                    value >= 1,
            ;
        }
        let mut prefix: Vec<u8> = be_bytes(value / 256);
        prefix.push((value % 256) as u8);
        prefix
    }
}

impl Xdrbg {
    /// An XDRBG for the chosen XOF.
    pub fn new(chosen_xof: Xof) -> (r: Self)
        ensures
            r.xof == chosen_xof,
    {
        Self { xof: chosen_xof }
    }

    /// Derives the initial state: `state_size` bytes of XOF output over the
    /// encoding of the seed with operation code 0. The seed must reach the
    /// instantiate minimum and alpha its fixed maximum.
    pub fn xdrbg_instantiate(&self, seed: &[u8], alpha: Option<Vec<u8>>) -> (r: Result<
        Vec<u8>,
        Errors,
    >)
        ensures
            seed_ok_spec(seed@, min_seed_size_instantiate_spec(self.xof)) && alpha_ok_spec(
                alpha_or_empty_spec(alpha),
            ) ==> (r matches Ok(state) && state@ == xof_output_spec(
                self.xof,
                encode_spec(seed@, alpha_or_empty_spec(alpha), 0),
                state_size_spec(self.xof),
            ) && state@.len() == state_size_spec(self.xof)),
            !(seed_ok_spec(seed@, min_seed_size_instantiate_spec(self.xof)) && alpha_ok_spec(
                alpha_or_empty_spec(alpha),
            )) ==> (r matches Err(e) && e matches Errors::InvalidLength(_)),
    {
        let alpha_val: Vec<u8> = match alpha {
            Some(val) => val,
            None => Vec::new(),
        };

        match self.xof.are_params_okay(seed, alpha_val.as_slice(), XdrbgOps::Instantiate) {
            Ok(_) => {
                let encoded_bytes: Vec<u8> = self.encode(seed, alpha_val.as_slice(), 0);
                let init_state: Vec<u8> = self.generate_output(
                    encoded_bytes.as_slice(),
                    self.xof.state_size(),
                );
                Ok(init_state)
            },
            Err(err) => Err(err),
        }
    }

    /// Derives a reseeded state: `state_size` bytes of XOF output over the
    /// encoding of the current state concatenated with the seed, with
    /// operation code 1. The seed must reach the reseed minimum and alpha
    /// its fixed maximum.
    pub fn xdrbg_reseed(
        &self,
        current_xdrbg_state: &[u8],
        seed: &[u8],
        alpha: Option<Vec<u8>>,
    ) -> (r: Result<Vec<u8>, Errors>)
        ensures
            seed_ok_spec(seed@, min_seed_size_reseed_spec(self.xof)) && alpha_ok_spec(
                alpha_or_empty_spec(alpha),
            ) ==> (r matches Ok(state) && state@ == xof_output_spec(
                self.xof,
                encode_spec(current_xdrbg_state@ + seed@, alpha_or_empty_spec(alpha), 1),
                state_size_spec(self.xof),
            ) && state@.len() == state_size_spec(self.xof)),
            !(seed_ok_spec(seed@, min_seed_size_reseed_spec(self.xof)) && alpha_ok_spec(
                alpha_or_empty_spec(alpha),
            )) ==> (r matches Err(e) && e matches Errors::InvalidLength(_)),
    {
        let alpha_val: Vec<u8> = match alpha {
            Some(val) => val,
            None => Vec::new(),
        };

        match self.xof.are_params_okay(seed, alpha_val.as_slice(), XdrbgOps::Reseed) {
            Ok(_) => {
                let input_bytes: Vec<u8> = concat_bytes(current_xdrbg_state, seed);
                let encoded_bytes: Vec<u8> = self.encode(
                    input_bytes.as_slice(),
                    alpha_val.as_slice(),
                    1,
                );
                let reseeded_state: Vec<u8> = self.generate_output(
                    encoded_bytes.as_slice(),
                    self.xof.state_size(),
                );
                Ok(reseeded_state)
            },
            Err(err) => Err(err),
        }
    }

    /// Produces output: `state_size + output_key_length` bytes of XOF output
    /// over the encoding of the current state with operation code 2, split
    /// into the leading `state_size` bytes (new state) and the remainder
    /// (random output). The combined length must respect the variant's
    /// maximum total output.
    pub fn xdrbg_generate(
        &self,
        current_xdrbg_state: &[u8],
        output_key_length: usize,
        alpha: Option<Vec<u8>>,
    ) -> (r: Result<(Vec<u8>, Vec<u8>), Errors>)
        requires
            alpha_or_empty_spec(alpha).len() + 170 <= usize::MAX,
        ensures
            output_len_ok_spec(self.xof, output_key_length as nat) ==> (r matches Ok(pair)
                && pair.0@ == xof_output_spec(
                    self.xof,
                    encode_spec(current_xdrbg_state@, alpha_or_empty_spec(alpha), 2),
                    (output_key_length + state_size_spec(self.xof)) as nat,
                ).take(state_size_spec(self.xof) as int)
                && pair.1@ == xof_output_spec(
                    self.xof,
                    encode_spec(current_xdrbg_state@, alpha_or_empty_spec(alpha), 2),
                    (output_key_length + state_size_spec(self.xof)) as nat,
                ).skip(state_size_spec(self.xof) as int)
                && pair.0@.len() == state_size_spec(self.xof)
                && pair.1@.len() == output_key_length),
            !output_len_ok_spec(self.xof, output_key_length as nat) ==> (r matches Err(e)
                && e matches Errors::InvalidLength(_)),
    {
        let alpha_val: Vec<u8> = match alpha {
            Some(val) => val,
            None => Vec::new(),
        };

        match self.xof.is_output_length_okay(output_key_length) {
            Ok(_) => {
                let encoded_bytes: Vec<u8> = self.encode(
                    current_xdrbg_state,
                    alpha_val.as_slice(),
                    2,
                );
                let state_size: usize = self.xof.state_size();
                let total_output: Vec<u8> = self.generate_output(
                    encoded_bytes.as_slice(),
                    output_key_length + state_size,
                );

                let mut new_xdrbg_state = total_output;
                let random_output: Vec<u8> = new_xdrbg_state.split_off(state_size);

                Ok((new_xdrbg_state, random_output))
            },
            Err(err) => Err(err),
        }
    }

    /// Builds the domain-separating encoding: the data, then alpha, then the
    /// minimal big-endian trailer for `op_code × 85 + len(alpha)` (one zero
    /// byte when that value is zero).
    pub fn encode(&self, seed: &[u8], alpha: &[u8], value_n: usize) -> (r: Vec<u8>)
        requires
            value_n * 85 + alpha@.len() <= usize::MAX,
        ensures
            r@ == encode_spec(seed@, alpha@, value_n as nat),
    {
        let computed_param: usize = value_n * 85 + alpha.len();

        let mut param_bytes: Vec<u8>;
        if computed_param == 0 {
            param_bytes = Vec::new();
            param_bytes.push(0u8);
            proof {
                assert(param_bytes@ =~= encode_param_spec(0));
            }
        } else {
            param_bytes = be_bytes(computed_param);
        }

        let mut encoded_value: Vec<u8> = Vec::new();
        extend_bytes(&mut encoded_value, seed);
        extend_bytes(&mut encoded_value, alpha);
        encoded_value.append(&mut param_bytes);
        proof {
            assert(encoded_value@ =~= encode_spec(seed@, alpha@, value_n as nat));
        }
        encoded_value
    }

    /// Runs the configured XOF over the encoded input for the requested
    /// number of output bytes.
    fn generate_output(&self, encoded_bytes: &[u8], total_output_length: usize) -> (r: Vec<u8>)
        ensures
            r@ == xof_output_spec(self.xof, encoded_bytes@, total_output_length as nat),
            r@.len() == total_output_length,
    {
        match self.xof {
            Xof::Shake128 => shake128_fill(encoded_bytes, total_output_length),
            Xof::Shake256 => shake256_fill(encoded_bytes, total_output_length),
            Xof::Ascon => ascon_xof_fill(encoded_bytes, total_output_length),
        }
    }
}

} // verus!
