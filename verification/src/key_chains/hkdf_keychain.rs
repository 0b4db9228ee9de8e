//! The HKDF key chain facade: a uniform `instantiate` / `update` contract
//! over the extract-then-expand construction, with optional persistence.

use vstd::prelude::*;

use crate::crypto_primitives::hkdf_wrap_ops::{
    digest_size_spec, hkdf_expand_spec, hkdf_extract_spec, info_or_empty_spec, salt_ok_spec,
    salt_or_default_spec, HashFunc, HkdfWrap,
};
use crate::crypto_primitives::utils::concat_bytes;
use crate::errors::Errors;
use crate::key_chains::storage_handler::{hash_func_id_spec, Storage};

verus! {

/// One full extract-then-expand derivation: the pseudorandom key extracted
/// from the key material under the salt, expanded to the requested length
/// under the info string.
pub open spec fn hkdf_chain_derive_spec(
    hash_func: HashFunc,
    salt: Seq<u8>,
    ikm: Seq<u8>,
    info: Seq<u8>,
    out_len: nat,
) -> Seq<u8> {
    hkdf_expand_spec(hash_func, hkdf_extract_spec(hash_func, salt, ikm), info, out_len)
}

/// Law: key derivation is deterministic — the states and outputs that
/// `key_chain_instantiate` and `key_chain_update` promise are functions of
/// the construction and its arguments alone, so any two results their
/// contracts permit for identical arguments are byte-identical.
pub proof fn hkdf_chain_deterministic(
    hash_func: HashFunc,
    salt: Seq<u8>,
    ikm: Seq<u8>,
    info: Seq<u8>,
    out_len: nat,
    first: Seq<u8>,
    second: Seq<u8>,
)
    requires
        first == hkdf_chain_derive_spec(hash_func, salt, ikm, info, out_len),
        second == hkdf_chain_derive_spec(hash_func, salt, ikm, info, out_len),
    ensures
        first == second,
{
}

/// An HKDF key chain: configuration fixed at construction, state threaded
/// explicitly by the caller, optionally persisted through a storage
/// capability.
pub struct HkdfKeyChain<S: Storage> {
    pub hkdf_obj: HkdfWrap,
    pub output_key_length: usize,
    pub state_length: usize,
    pub store_persistently: bool,
    pub storage: Option<S>,
}

impl<S: Storage> HkdfKeyChain<S> {
    /// Configuration invariant: the state length is the digest size, a full
    /// update request fits in a machine word, and persistence implies a
    /// storage handle.
    pub open spec fn wf(self) -> bool {
        &&& self.state_length == digest_size_spec(self.hkdf_obj.hash_func)
        &&& self.state_length + self.output_key_length <= usize::MAX
        &&& self.store_persistently ==> self.storage is Some
    }

    /// A chain for the chosen hash function. The output length defaults to
    /// the digest size. Persistence without a storage handle is rejected at
    /// construction, before any derivation can run.
    pub fn new(
        hash_func: HashFunc,
        output_key_length: Option<usize>,
        store_persistently: Option<bool>,
        storage: Option<S>,
    ) -> (r: Result<Self, Errors>)
        requires
            output_key_length matches Some(n) ==> n <= usize::MAX - 64,
        ensures
            (store_persistently == Some(true) && storage is None) <==> r is Err,
            r matches Err(e) ==> e matches Errors::UninitializedStorage(_),
            r matches Ok(c) ==> c.wf() && c.hkdf_obj.hash_func == hash_func
                && c.state_length == digest_size_spec(hash_func)
                && c.output_key_length == (match output_key_length {
                    Some(n) => n as nat,
                    None => digest_size_spec(hash_func),
                })
                && c.store_persistently == (store_persistently == Some(true))
                && (c.store_persistently ==> c.storage == storage)
                && (!c.store_persistently ==> c.storage is None),
    {
        let hkdf_obj: HkdfWrap = HkdfWrap::new(hash_func);

        let persist: bool = match store_persistently {
            Some(choice) => choice,
            None => false,
        };

        let storage_choice: Option<S> = if persist {
            match storage {
                Some(handle) => Some(handle),
                None => {
                    return Err(Errors::UninitializedStorage(String::from_str(
                        "Hkdf keychain storage not initialized.",
                    )));
                },
            }
        } else {
            None
        };

        let output_length: usize = match output_key_length {
            Some(requested) => requested,
            None => hash_func.output_size(),
        };

        Ok(Self {
            hkdf_obj,
            output_key_length: output_length,
            state_length: hash_func.output_size(),
            store_persistently: persist,
            storage: storage_choice,
        })
    }

    /// Derives the initial chain state from secret key material: extract
    /// under the salt (or the all-zero default), then expand under the info
    /// string to exactly `state_length` bytes. A salt longer than the digest
    /// is rejected.
    pub fn key_chain_instantiate(
        &self,
        initial_skm: &[u8],
        extractor_salt: Option<Vec<u8>>,
        info_param: Option<Vec<u8>>,
    ) -> (r: Result<Vec<u8>, Errors>)
        requires
            self.wf(),
        ensures
            salt_ok_spec(self.hkdf_obj.hash_func, extractor_salt) ==> (r matches Ok(state)
                && state@ == hkdf_chain_derive_spec(
                    self.hkdf_obj.hash_func,
                    salt_or_default_spec(self.hkdf_obj.hash_func, extractor_salt),
                    initial_skm@,
                    info_or_empty_spec(info_param),
                    self.state_length as nat,
                )
                && state@.len() == self.state_length),
            !salt_ok_spec(self.hkdf_obj.hash_func, extractor_salt) ==> (r matches Err(e)
                && e matches Errors::InvalidLength(_)),
    {
        let pseudo_random_key: Vec<u8> = match self.hkdf_obj.hkdf_extract(
            extractor_salt,
            initial_skm,
        ) {
            Ok(key) => key,
            Err(err) => {
                return Err(err);
            },
        };

        let initial_state: Vec<u8> = match self.hkdf_obj.hkdf_expand(
            pseudo_random_key.as_slice(),
            info_param,
            self.state_length,
        ) {
            Ok(state) => state,
            Err(err) => {
                return Err(err);
            },
        };

        Ok(initial_state)
    }

    /// One chain step: extracts from `input ‖ state`, expands to
    /// `state_length + output_key_length` bytes, and splits the result into
    /// the new state (leading bytes) and the random output (trailing bytes).
    /// If persistence is enabled, the new state is stored under this chain's
    /// hash-function identity before returning. Fails when the salt exceeds
    /// the digest size or the full request exceeds 255 digests.
    pub fn key_chain_update(
        &mut self,
        arbitrary_input_param: &[u8],
        keychain_state: &[u8],
        extractor_salt: Option<Vec<u8>>,
        info_param: Option<Vec<u8>>,
    ) -> (r: Result<(Vec<u8>, Vec<u8>), Errors>)
        requires
            old(self).wf(),
        ensures
            final(self).wf(),
            final(self).hkdf_obj == old(self).hkdf_obj,
            final(self).output_key_length == old(self).output_key_length,
            final(self).state_length == old(self).state_length,
            final(self).store_persistently == old(self).store_persistently,
            r is Err ==> *final(self) == *old(self),
            !salt_ok_spec(old(self).hkdf_obj.hash_func, extractor_salt) ==> (r matches Err(e)
                && e matches Errors::InvalidLength(_)),
            salt_ok_spec(old(self).hkdf_obj.hash_func, extractor_salt) && old(self).state_length
                + old(self).output_key_length > 255 * digest_size_spec(
                old(self).hkdf_obj.hash_func,
            ) ==> (r matches Err(e) && e matches Errors::InvalidLength(_)),
            salt_ok_spec(old(self).hkdf_obj.hash_func, extractor_salt) && old(self).state_length
                + old(self).output_key_length <= 255 * digest_size_spec(
                old(self).hkdf_obj.hash_func,
            ) ==> (r matches Ok(pair) && pair.0@ == old(self).spec_update_total(
                arbitrary_input_param@,
                keychain_state@,
                extractor_salt,
                info_param,
            ).take(old(self).state_length as int) && pair.1@ == old(self).spec_update_total(
                arbitrary_input_param@,
                keychain_state@,
                extractor_salt,
                info_param,
            ).skip(old(self).state_length as int) && pair.0@.len() == old(self).state_length
                && pair.1@.len() == old(self).output_key_length),
            r is Ok && !old(self).store_persistently ==> *final(self) == *old(self),
            r is Ok && old(self).store_persistently ==> (r matches Ok(pair) && old(
                self,
            ).storage matches Some(s0) && final(self).storage matches Some(s1) && (
            s0.hkdf_configured() ==> s1.hkdf_states() == s0.hkdf_states().insert(
                hash_func_id_spec(old(self).hkdf_obj.hash_func),
                pair.0@,
            )) && (!s0.hkdf_configured() ==> s1.hkdf_states() == s0.hkdf_states())
                && s1.hkdf_configured() == s0.hkdf_configured() && s1.prg_configured()
                == s0.prg_configured() && s1.xdrbg_configured() == s0.xdrbg_configured()
                && s1.prg_states() == s0.prg_states() && s1.xdrbg_states() == s0.xdrbg_states()),
    {
        let ghost pre = *self;
        let source_key_material: Vec<u8> = concat_bytes(arbitrary_input_param, keychain_state);

        let pseudo_random_key: Vec<u8> = match self.hkdf_obj.hkdf_extract(
            extractor_salt,
            source_key_material.as_slice(),
        ) {
            Ok(key) => key,
            Err(err) => {
                return Err(err);
            },
        };

        let total_length: usize = self.state_length + self.output_key_length;

        match self.hkdf_obj.hkdf_expand(pseudo_random_key.as_slice(), info_param, total_length) {
            Ok(total_output) => {
                let mut new_state_of_key_chain = total_output;
                let random_output: Vec<u8> = new_state_of_key_chain.split_off(self.state_length);

                if self.store_persistently {
                    let hash_func: HashFunc = self.hkdf_obj.hash_func;
                    match &mut self.storage {
                        Some(storage) => {
                            storage.store_state_for_hkdf_keychain(
                                new_state_of_key_chain.as_slice(),
                                hash_func,
                            );
                        },
                        None => {},
                    }
                }

                Ok((new_state_of_key_chain, random_output))
            },
            Err(err) => Err(err),
        }
    }

    /// The full expanded block one update derives: extraction over
    /// `input ‖ state`, expanded to `state_length + output_key_length`
    /// bytes.
    pub open spec fn spec_update_total(
        &self,
        input: Seq<u8>,
        state: Seq<u8>,
        extractor_salt: Option<Vec<u8>>,
        info_param: Option<Vec<u8>>,
    ) -> Seq<u8> {
        hkdf_chain_derive_spec(
            self.hkdf_obj.hash_func,
            salt_or_default_spec(self.hkdf_obj.hash_func, extractor_salt),
            input + state,
            info_or_empty_spec(info_param),
            (self.state_length + self.output_key_length) as nat,
        )
    }
}

} // verus!
