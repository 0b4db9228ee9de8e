//! The XDRBG key chain facade: a uniform `instantiate` / `update` contract
//! over the XOF-based instantiate / reseed / generate construction, with
//! optional persistence.

use vstd::prelude::*;

use crate::crypto_primitives::xdrbg_ops::{
    alpha_ok_spec, alpha_or_empty_spec, encode_spec, min_seed_size_instantiate_spec,
    min_seed_size_reseed_spec, output_len_ok_spec, seed_ok_spec, state_size_spec, xof_output_spec,
    Xdrbg, Xof,
};
use crate::errors::Errors;
use crate::key_chains::storage_handler::{xof_id_spec, Storage};

verus! {

/// The state a reseed derives: `state_size` bytes of XOF output over the
/// encoding of `state ‖ input` with operation code 1.
pub open spec fn xdrbg_reseed_state_spec(
    xof: Xof,
    input: Seq<u8>,
    state: Seq<u8>,
    alpha_reseed: Seq<u8>,
) -> Seq<u8> {
    xof_output_spec(xof, encode_spec(state + input, alpha_reseed, 1), state_size_spec(xof))
}

/// The full block one update derives: reseed with the fresh input, then
/// generate `state_size + output_key_length` bytes over the encoding of the
/// reseeded state with operation code 2.
pub open spec fn xdrbg_update_total_spec(
    xof: Xof,
    input: Seq<u8>,
    state: Seq<u8>,
    alpha_reseed: Seq<u8>,
    alpha_generate: Seq<u8>,
    output_key_length: nat,
) -> Seq<u8> {
    xof_output_spec(
        xof,
        encode_spec(xdrbg_reseed_state_spec(xof, input, state, alpha_reseed), alpha_generate, 2),
        output_key_length + state_size_spec(xof),
    )
}

/// Law: the generator is deterministic — the states and outputs that
/// `key_chain_instantiate` and `key_chain_update` promise are functions of
/// the construction and its arguments alone, so any two results their
/// contracts permit for identical arguments are byte-identical.
pub proof fn xdrbg_chain_deterministic(
    xof: Xof,
    input: Seq<u8>,
    state: Seq<u8>,
    alpha_reseed: Seq<u8>,
    alpha_generate: Seq<u8>,
    output_key_length: nat,
    first: Seq<u8>,
    second: Seq<u8>,
)
    requires
        first == xdrbg_update_total_spec(
            xof,
            input,
            state,
            alpha_reseed,
            alpha_generate,
            output_key_length,
        ),
        second == xdrbg_update_total_spec(
            xof,
            input,
            state,
            alpha_reseed,
            alpha_generate,
            output_key_length,
        ),
    ensures
        first == second,
{
}

/// An XDRBG key chain: configuration fixed at construction, state threaded
/// explicitly by the caller, optionally persisted through a storage
/// capability.
pub struct XdrbgKeyChain<S: Storage> {
    pub xdrbg_obj: Xdrbg,
    pub output_key_length: usize,
    pub store_persistently: bool,
    pub storage: Option<S>,
}

impl<S: Storage> XdrbgKeyChain<S> {
    /// Configuration invariant: persistence implies a storage handle.
    pub open spec fn wf(self) -> bool {
        self.store_persistently ==> self.storage is Some
    }

    /// A chain for the chosen XOF. The output length defaults to the XOF's
    /// state size. Persistence without a storage handle is rejected at
    /// construction, before any generation can run.
    pub fn new(
        chosen_xof: Xof,
        output_key_length: Option<usize>,
        store_persistently: Option<bool>,
        storage: Option<S>,
    ) -> (r: Result<Self, Errors>)
        ensures
            (store_persistently == Some(true) && storage is None) <==> r is Err,
            r matches Err(e) ==> e matches Errors::UninitializedStorage(_),
            r matches Ok(c) ==> c.wf() && c.xdrbg_obj.xof == chosen_xof && c.output_key_length == (
            match output_key_length {
                Some(n) => n as nat,
                None => state_size_spec(chosen_xof),
            }) && c.store_persistently == (store_persistently == Some(true)) && (
            c.store_persistently ==> c.storage == storage) && (!c.store_persistently ==> c.storage
                is None),
    {
        let xdrbg_obj: Xdrbg = Xdrbg::new(chosen_xof);

        let persist: bool = match store_persistently {
            Some(choice) => choice,
            None => false,
        };

        let storage_choice: Option<S> = if persist {
            match storage {
                Some(handle) => Some(handle),
                None => {
                    return Err(Errors::UninitializedStorage(String::from_str(
                        "Xdrbg keychain storage not initialized.",
                    )));
                },
            }
        } else {
            None
        };

        let output_length: usize = match output_key_length {
            Some(requested) => requested,
            None => chosen_xof.state_size(),
        };

        Ok(Self {
            xdrbg_obj,
            output_key_length: output_length,
            store_persistently: persist,
            storage: storage_choice,
        })
    }

    /// Derives the initial chain state: `state_size` bytes of XOF output
    /// over the encoding of the seed with operation code 0. The seed must
    /// reach the instantiate minimum and alpha its fixed maximum.
    pub fn key_chain_instantiate(&self, seed: &[u8], alpha: Option<Vec<u8>>) -> (r: Result<
        Vec<u8>,
        Errors,
    >)
        requires
            self.wf(),
        ensures
            seed_ok_spec(seed@, min_seed_size_instantiate_spec(self.xdrbg_obj.xof))
                && alpha_ok_spec(alpha_or_empty_spec(alpha)) ==> (r matches Ok(state) && state@
                == xof_output_spec(
                self.xdrbg_obj.xof,
                encode_spec(seed@, alpha_or_empty_spec(alpha), 0),
                state_size_spec(self.xdrbg_obj.xof),
            ) && state@.len() == state_size_spec(self.xdrbg_obj.xof)),
            !(seed_ok_spec(seed@, min_seed_size_instantiate_spec(self.xdrbg_obj.xof))
                && alpha_ok_spec(alpha_or_empty_spec(alpha))) ==> (r matches Err(e)
                && e matches Errors::InvalidLength(_)),
    {
        let initial_state: Vec<u8> = match self.xdrbg_obj.xdrbg_instantiate(seed, alpha) {
            Ok(xdrbg_init_state) => xdrbg_init_state,
            Err(err) => {
                return Err(err);
            },
        };

        Ok(initial_state)
    }

    /// One chain step: reseeds the state with the fresh input, then
    /// generates `state_size + output_key_length` bytes over the reseeded
    /// state, returning the new state (leading `state_size` bytes) and the
    /// random output (remainder). If persistence is enabled, the new state
    /// is stored under this chain's XOF identity before returning. Fails
    /// when the input is shorter than the reseed minimum, the reseed alpha
    /// exceeds its maximum, or the combined output exceeds the XOF's bound.
    pub fn key_chain_update(
        &mut self,
        arbitrary_input_param: &[u8],
        keychain_state: &[u8],
        alpha_reseed: Option<Vec<u8>>,
        alpha_generate: Option<Vec<u8>>,
    ) -> (r: Result<(Vec<u8>, Vec<u8>), Errors>)
        requires
            old(self).wf(),
            alpha_or_empty_spec(alpha_generate).len() + 170 <= usize::MAX,
        ensures
            final(self).wf(),
            final(self).xdrbg_obj == old(self).xdrbg_obj,
            final(self).output_key_length == old(self).output_key_length,
            final(self).store_persistently == old(self).store_persistently,
            r is Err ==> *final(self) == *old(self),
            !(seed_ok_spec(arbitrary_input_param@, min_seed_size_reseed_spec(
                old(self).xdrbg_obj.xof,
            )) && alpha_ok_spec(alpha_or_empty_spec(alpha_reseed))) ==> (r matches Err(e)
                && e matches Errors::InvalidLength(_)),
            seed_ok_spec(arbitrary_input_param@, min_seed_size_reseed_spec(old(self).xdrbg_obj.xof))
                && alpha_ok_spec(alpha_or_empty_spec(alpha_reseed)) && !output_len_ok_spec(
                old(self).xdrbg_obj.xof,
                old(self).output_key_length as nat,
            ) ==> (r matches Err(e) && e matches Errors::InvalidLength(_)),
            seed_ok_spec(arbitrary_input_param@, min_seed_size_reseed_spec(old(self).xdrbg_obj.xof))
                && alpha_ok_spec(alpha_or_empty_spec(alpha_reseed)) && output_len_ok_spec(
                old(self).xdrbg_obj.xof,
                old(self).output_key_length as nat,
            ) ==> (r matches Ok(pair) && pair.0@ == xdrbg_update_total_spec(
                old(self).xdrbg_obj.xof,
                arbitrary_input_param@,
                keychain_state@,
                alpha_or_empty_spec(alpha_reseed),
                alpha_or_empty_spec(alpha_generate),
                old(self).output_key_length as nat,
            ).take(state_size_spec(old(self).xdrbg_obj.xof) as int) && pair.1@
                == xdrbg_update_total_spec(
                old(self).xdrbg_obj.xof,
                arbitrary_input_param@,
                keychain_state@,
                alpha_or_empty_spec(alpha_reseed),
                alpha_or_empty_spec(alpha_generate),
                old(self).output_key_length as nat,
            ).skip(state_size_spec(old(self).xdrbg_obj.xof) as int) && pair.0@.len()
                == state_size_spec(old(self).xdrbg_obj.xof) && pair.1@.len() == old(
                self,
            ).output_key_length),
            r is Ok && !old(self).store_persistently ==> *final(self) == *old(self),
            r is Ok && old(self).store_persistently ==> (r matches Ok(pair) && old(
                self,
            ).storage matches Some(s0) && final(self).storage matches Some(s1) && (
            s0.xdrbg_configured() ==> s1.xdrbg_states() == s0.xdrbg_states().insert(
                xof_id_spec(old(self).xdrbg_obj.xof),
                pair.0@,
            )) && (!s0.xdrbg_configured() ==> s1.xdrbg_states() == s0.xdrbg_states())
                && s1.xdrbg_configured() == s0.xdrbg_configured() && s1.hkdf_configured()
                == s0.hkdf_configured() && s1.prg_configured() == s0.prg_configured()
                && s1.hkdf_states() == s0.hkdf_states() && s1.prg_states() == s0.prg_states()),
    {
        let reseeded_xdrbg_state: Vec<u8> = match self.xdrbg_obj.xdrbg_reseed(
            keychain_state,
            arbitrary_input_param,
            alpha_reseed,
        ) {
            Ok(reseeded_state) => reseeded_state,
            Err(err) => {
                return Err(err);
            },
        };

        let (new_state_of_key_chain, random_output) = match self.xdrbg_obj.xdrbg_generate(
            reseeded_xdrbg_state.as_slice(),
            self.output_key_length,
            alpha_generate,
        ) {
            Ok(total_output) => total_output,
            Err(err) => {
                return Err(err);
            },
        };

        if self.store_persistently {
            let xof: Xof = self.xdrbg_obj.xof;
            match &mut self.storage {
                Some(storage) => {
                    storage.store_state_for_xdrbg_keychain(
                        new_state_of_key_chain.as_slice(),
                        xof,
                    );
                },
                None => {},
            }
        }

        Ok((new_state_of_key_chain, random_output))
    }
}

} // verus!
