//! The PRG key chain facade: a uniform `instantiate` / `update` contract
//! over the counter-mode refresh / next construction, with optional
//! persistence.

use vstd::prelude::*;

use crate::crypto_primitives::prg_ops::{
    prg_next_output_spec, prg_next_state_spec, prg_refresh_spec, valid_key_len_spec, Prg,
};
use crate::crypto_primitives::utils::{zero_bytes, zero_bytes_spec};
use crate::errors::Errors;
use crate::key_chains::storage_handler::Storage;

verus! {

/// The new chain state one update derives: refresh with the fresh input,
/// then the second keystream half of the next step.
pub open spec fn prg_update_state_spec(lambda: nat, input: Seq<u8>, state: Seq<u8>) -> Seq<u8> {
    prg_next_state_spec(lambda, prg_refresh_spec(lambda, state, input))
}

/// The random output one update derives: refresh with the fresh input, then
/// the first keystream half of the next step.
pub open spec fn prg_update_output_spec(lambda: nat, input: Seq<u8>, state: Seq<u8>) -> Seq<u8> {
    prg_next_output_spec(lambda, prg_refresh_spec(lambda, state, input))
}

/// Law: the generator is deterministic — the states and outputs that
/// `key_chain_instantiate` and `key_chain_update` promise are functions of
/// the construction and its arguments alone, so any two results their
/// contracts permit for identical arguments are byte-identical.
pub proof fn prg_chain_deterministic(
    lambda: nat,
    input: Seq<u8>,
    state: Seq<u8>,
    first_state: Seq<u8>,
    second_state: Seq<u8>,
    first_output: Seq<u8>,
    second_output: Seq<u8>,
)
    requires
        first_state == prg_update_state_spec(lambda, input, state),
        second_state == prg_update_state_spec(lambda, input, state),
        first_output == prg_update_output_spec(lambda, input, state),
        second_output == prg_update_output_spec(lambda, input, state),
    ensures
        first_state == second_state,
        first_output == second_output,
{
}

/// A PRG key chain: configuration fixed at construction, state threaded
/// explicitly by the caller, optionally persisted through a storage
/// capability.
pub struct PrgKeyChain<S: Storage> {
    pub prg_obj: Prg,
    pub store_persistently: bool,
    pub init_state: Vec<u8>,
    pub storage: Option<S>,
}

impl<S: Storage> PrgKeyChain<S> {
    /// Configuration invariant: the generator's double-length request fits
    /// in a machine word, the built-in initial state is the all-zero state
    /// of `security_param_lambda` bytes, and persistence implies a storage
    /// handle.
    pub open spec fn wf(self) -> bool {
        &&& self.prg_obj.wf()
        &&& self.init_state@ == zero_bytes_spec(self.prg_obj.security_param_lambda as nat)
        &&& self.store_persistently ==> self.storage is Some
    }

    /// A chain for the chosen security parameter. Persistence without a
    /// storage handle is rejected at construction, before any generation
    /// can run.
    pub fn new(
        security_param_lambda: usize,
        store_persistently: Option<bool>,
        storage: Option<S>,
    ) -> (r: Result<Self, Errors>)
        requires
            2 * security_param_lambda <= usize::MAX,
        ensures
            (store_persistently == Some(true) && storage is None) <==> r is Err,
            r matches Err(e) ==> e matches Errors::UninitializedStorage(_),
            r matches Ok(c) ==> c.wf() && c.prg_obj.security_param_lambda
                == security_param_lambda && c.store_persistently == (store_persistently == Some(
                true,
            )) && (c.store_persistently ==> c.storage == storage) && (!c.store_persistently
                ==> c.storage is None),
    {
        let prg_obj: Prg = Prg::new(security_param_lambda);

        let persist: bool = match store_persistently {
            Some(choice) => choice,
            None => false,
        };

        let storage_choice: Option<S> = if persist {
            match storage {
                Some(handle) => Some(handle),
                None => {
                    return Err(Errors::UninitializedStorage(String::from_str(
                        "Prg keychain storage not initialized.",
                    )));
                },
            }
        } else {
            None
        };

        Ok(Self {
            prg_obj,
            store_persistently: persist,
            init_state: zero_bytes(security_param_lambda),
            storage: storage_choice,
        })
    }

    /// Derives the initial chain state: a refresh of the all-zero state
    /// with the seed. The seed must have exactly `security_param_lambda`
    /// bytes, and that length must be a supported cipher key length.
    pub fn key_chain_instantiate(&self, seed_for_prg_refreshing: &[u8]) -> (r: Result<
        Vec<u8>,
        Errors,
    >)
        requires
            self.wf(),
        ensures
            seed_for_prg_refreshing@.len() != self.prg_obj.security_param_lambda ==> (
            r matches Err(e) && e matches Errors::XORLengthMismatch(_)),
            seed_for_prg_refreshing@.len() == self.prg_obj.security_param_lambda
                && !valid_key_len_spec(self.prg_obj.security_param_lambda as nat) ==> (
            r matches Err(e) && e matches Errors::InvalidInputKeyLength(_)),
            seed_for_prg_refreshing@.len() == self.prg_obj.security_param_lambda
                && valid_key_len_spec(self.prg_obj.security_param_lambda as nat) ==> (
            r matches Ok(state) && state@ == prg_refresh_spec(
                self.prg_obj.security_param_lambda as nat,
                zero_bytes_spec(self.prg_obj.security_param_lambda as nat),
                seed_for_prg_refreshing@,
            ) && state@.len() == self.prg_obj.security_param_lambda),
    {
        let initial_state: Vec<u8> = match self.prg_obj.prg_refresh(
            self.init_state.as_slice(),
            seed_for_prg_refreshing,
        ) {
            Ok(prg_state_after_refreshing) => prg_state_after_refreshing,
            Err(err) => {
                return Err(err);
            },
        };

        Ok(initial_state)
    }

    /// One chain step: refreshes the state with the fresh input, then runs
    /// the next step on the refreshed state, returning the new state
    /// (second keystream half) and the random output (first half). If
    /// persistence is enabled, the new state is stored under this chain's
    /// security parameter before returning. Fails when the input and state
    /// lengths differ, or when the state length or the security parameter
    /// is not a supported cipher key length.
    pub fn key_chain_update(&mut self, arbitrary_input_param: &[u8], keychain_state: &[u8]) -> (r:
        Result<(Vec<u8>, Vec<u8>), Errors>)
        requires
            old(self).wf(),
        ensures
            final(self).wf(),
            final(self).prg_obj == old(self).prg_obj,
            final(self).store_persistently == old(self).store_persistently,
            final(self).init_state@ == old(self).init_state@,
            r is Err ==> *final(self) == *old(self),
            keychain_state@.len() != arbitrary_input_param@.len() ==> (r matches Err(e)
                && e matches Errors::XORLengthMismatch(_)),
            keychain_state@.len() == arbitrary_input_param@.len() && !valid_key_len_spec(
                keychain_state@.len(),
            ) ==> (r matches Err(e) && e matches Errors::InvalidInputKeyLength(_)),
            keychain_state@.len() == arbitrary_input_param@.len() && valid_key_len_spec(
                keychain_state@.len(),
            ) && !valid_key_len_spec(old(self).prg_obj.security_param_lambda as nat) ==> (
            r matches Err(e) && e matches Errors::InvalidInputKeyLength(_)),
            keychain_state@.len() == arbitrary_input_param@.len() && valid_key_len_spec(
                keychain_state@.len(),
            ) && valid_key_len_spec(old(self).prg_obj.security_param_lambda as nat) ==> (
            r matches Ok(pair) && pair.0@ == prg_update_state_spec(
                old(self).prg_obj.security_param_lambda as nat,
                arbitrary_input_param@,
                keychain_state@,
            ) && pair.1@ == prg_update_output_spec(
                old(self).prg_obj.security_param_lambda as nat,
                arbitrary_input_param@,
                keychain_state@,
            ) && pair.0@.len() == old(self).prg_obj.security_param_lambda && pair.1@.len() == old(
                self,
            ).prg_obj.security_param_lambda),
            r is Ok && !old(self).store_persistently ==> *final(self) == *old(self),
            r is Ok && old(self).store_persistently ==> (r matches Ok(pair) && old(
                self,
            ).storage matches Some(s0) && final(self).storage matches Some(s1) && (
            s0.prg_configured() ==> s1.prg_states() == s0.prg_states().insert(
                old(self).prg_obj.security_param_lambda as u64,
                pair.0@,
            )) && (!s0.prg_configured() ==> s1.prg_states() == s0.prg_states())
                && s1.prg_configured() == s0.prg_configured() && s1.hkdf_configured()
                == s0.hkdf_configured() && s1.xdrbg_configured() == s0.xdrbg_configured()
                && s1.hkdf_states() == s0.hkdf_states() && s1.xdrbg_states() == s0.xdrbg_states()),
    {
        let refreshed_prg_state: Vec<u8> = match self.prg_obj.prg_refresh(
            keychain_state,
            arbitrary_input_param,
        ) {
            Ok(prg_state_after_refreshing) => prg_state_after_refreshing,
            Err(err) => {
                return Err(err);
            },
        };

        let (random_output, new_state_of_key_chain) = match self.prg_obj.prg_next(
            refreshed_prg_state.as_slice(),
        ) {
            Ok(total_output) => total_output,
            Err(err) => {
                return Err(err);
            },
        };

        if self.store_persistently {
            let security_param_lambda: usize = self.prg_obj.security_param_lambda;
            match &mut self.storage {
                Some(storage) => {
                    storage.store_state_for_prg_keychain(
                        new_state_of_key_chain.as_slice(),
                        security_param_lambda,
                    );
                },
                None => {},
            }
        }

        Ok((new_state_of_key_chain, random_output))
    }
}

} // verus!
