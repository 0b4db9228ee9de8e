//! The storage capability consumed by the key-chain facades: per-kind
//! store / fetch of the most recently produced state, keyed by algorithm
//! identity, with a reference in-memory implementation.

use vstd::prelude::*;

use crate::crypto_primitives::hkdf_wrap_ops::HashFunc;
use crate::crypto_primitives::utils::copy_bytes;
use crate::crypto_primitives::xdrbg_ops::Xof;
use crate::errors::Errors;

verus! {

/// The storage key of a hash-function identity.
pub open spec fn hash_func_id_spec(hash_func: HashFunc) -> u64 {
    match hash_func {
        HashFunc::Sha256 => 0,
        HashFunc::Sha512 => 1,
        HashFunc::Sha3_256 => 2,
        HashFunc::Sha3_512 => 3,
    }
}

/// The storage key of a hash-function identity.
pub fn hash_func_id(hash_func: HashFunc) -> (r: u64)
    ensures
        r == hash_func_id_spec(hash_func),
{
    match hash_func {
        HashFunc::Sha256 => 0,
        HashFunc::Sha512 => 1,
        HashFunc::Sha3_256 => 2,
        HashFunc::Sha3_512 => 3,
    }
}

/// The storage key of an XOF identity.
pub open spec fn xof_id_spec(xof: Xof) -> u64 {
    match xof {
        Xof::Shake128 => 0,
        Xof::Shake256 => 1,
        Xof::Ascon => 2,
    }
}

/// The storage key of an XOF identity.
pub fn xof_id(xof: Xof) -> (r: u64)
    ensures
        r == xof_id_spec(xof),
{
    match xof {
        Xof::Shake128 => 0,
        Xof::Shake256 => 1,
        Xof::Ascon => 2,
    }
}

/// A capability that persists the latest key-chain state per algorithm
/// identity, with one independent partition per key-chain kind. A store on
/// an unconfigured partition is a silent no-op, as in the reference
/// implementation; a fetch on one reports `UninitializedStorage`.
pub trait Storage: Sized {
    /// Whether the HKDF partition was configured.
    spec fn hkdf_configured(&self) -> bool;

    /// Whether the PRG partition was configured.
    spec fn prg_configured(&self) -> bool;

    /// Whether the XDRBG partition was configured.
    spec fn xdrbg_configured(&self) -> bool;

    /// The stored HKDF states, keyed by hash-function identity.
    spec fn hkdf_states(&self) -> Map<u64, Seq<u8>>;

    /// The stored PRG states, keyed by security parameter.
    spec fn prg_states(&self) -> Map<u64, Seq<u8>>;

    /// The stored XDRBG states, keyed by XOF identity.
    spec fn xdrbg_states(&self) -> Map<u64, Seq<u8>>;

    /// Overwrites the slot of the given hash-function identity with the
    /// state, if the HKDF partition is configured.
    fn store_state_for_hkdf_keychain(&mut self, state_of_key_chain: &[u8], hash_func: HashFunc)
        ensures
            final(self).hkdf_configured() == old(self).hkdf_configured(),
            final(self).prg_configured() == old(self).prg_configured(),
            final(self).xdrbg_configured() == old(self).xdrbg_configured(),
            old(self).hkdf_configured() ==> final(self).hkdf_states() == old(
                self,
            ).hkdf_states().insert(hash_func_id_spec(hash_func), state_of_key_chain@),
            !old(self).hkdf_configured() ==> final(self).hkdf_states() == old(self).hkdf_states(),
            final(self).prg_states() == old(self).prg_states(),
            final(self).xdrbg_states() == old(self).xdrbg_states(),
    ;

    /// Overwrites the slot of the given security parameter with the state,
    /// if the PRG partition is configured.
    fn store_state_for_prg_keychain(&mut self, state_of_key_chain: &[u8], security_param_lambda: usize)
        ensures
            final(self).hkdf_configured() == old(self).hkdf_configured(),
            final(self).prg_configured() == old(self).prg_configured(),
            final(self).xdrbg_configured() == old(self).xdrbg_configured(),
            old(self).prg_configured() ==> final(self).prg_states() == old(
                self,
            ).prg_states().insert(security_param_lambda as u64, state_of_key_chain@),
            !old(self).prg_configured() ==> final(self).prg_states() == old(self).prg_states(),
            final(self).hkdf_states() == old(self).hkdf_states(),
            final(self).xdrbg_states() == old(self).xdrbg_states(),
    ;

    /// Overwrites the slot of the given XOF identity with the state, if the
    /// XDRBG partition is configured.
    fn store_state_for_xdrbg_keychain(&mut self, state_of_key_chain: &[u8], xof: Xof)
        ensures
            final(self).hkdf_configured() == old(self).hkdf_configured(),
            final(self).prg_configured() == old(self).prg_configured(),
            final(self).xdrbg_configured() == old(self).xdrbg_configured(),
            old(self).xdrbg_configured() ==> final(self).xdrbg_states() == old(
                self,
            ).xdrbg_states().insert(xof_id_spec(xof), state_of_key_chain@),
            !old(self).xdrbg_configured() ==> final(self).xdrbg_states() == old(
                self,
            ).xdrbg_states(),
            final(self).hkdf_states() == old(self).hkdf_states(),
            final(self).prg_states() == old(self).prg_states(),
    ;

    /// The last state stored under the given hash-function identity.
    fn fetch_hkdf_keychain_state(&self, hash_func: HashFunc) -> (r: Result<Vec<u8>, Errors>)
        ensures
            !self.hkdf_configured() ==> (r matches Err(e)
                && e matches Errors::UninitializedStorage(_)),
            self.hkdf_configured() && !self.hkdf_states().contains_key(
                hash_func_id_spec(hash_func),
            ) ==> (r matches Err(e) && e matches Errors::NoStoredState(_)),
            self.hkdf_configured() && self.hkdf_states().contains_key(
                hash_func_id_spec(hash_func),
            ) ==> (r matches Ok(state) && state@ == self.hkdf_states()[hash_func_id_spec(
                hash_func,
            )]),
    ;

    /// The last state stored under the given security parameter.
    fn fetch_prg_keychain_state(&self, security_param_lambda: usize) -> (r: Result<
        Vec<u8>,
        Errors,
    >)
        ensures
            !self.prg_configured() ==> (r matches Err(e)
                && e matches Errors::UninitializedStorage(_)),
            self.prg_configured() && !self.prg_states().contains_key(
                security_param_lambda as u64,
            ) ==> (r matches Err(e) && e matches Errors::NoStoredState(_)),
            self.prg_configured() && self.prg_states().contains_key(
                security_param_lambda as u64,
            ) ==> (r matches Ok(state) && state@ == self.prg_states()[security_param_lambda as u64]),
    ;

    /// The last state stored under the given XOF identity.
    fn fetch_xdrbg_keychain_state(&self, xof: Xof) -> (r: Result<Vec<u8>, Errors>)
        ensures
            !self.xdrbg_configured() ==> (r matches Err(e)
                && e matches Errors::UninitializedStorage(_)),
            self.xdrbg_configured() && !self.xdrbg_states().contains_key(xof_id_spec(xof)) ==> (
            r matches Err(e) && e matches Errors::NoStoredState(_)),
            self.xdrbg_configured() && self.xdrbg_states().contains_key(xof_id_spec(xof)) ==> (
            r matches Ok(state) && state@ == self.xdrbg_states()[xof_id_spec(xof)]),
    ;
}

/// The map described by an association list: a later entry for a key
/// overrides an earlier one.
pub open spec fn entries_map_spec(s: Seq<(u64, Vec<u8>)>) -> Map<u64, Seq<u8>>
    decreases s.len(),
{
    if s.len() == 0 {
        Map::empty()
    } else {
        entries_map_spec(s.drop_last()).insert(s.last().0, s.last().1@)
    }
}

/// A key occurs in the described map exactly when some entry carries it.
proof fn lemma_entries_map_domain(s: Seq<(u64, Vec<u8>)>, key: u64)
    ensures
        entries_map_spec(s).contains_key(key) <==> (exists|i: int|
            0 <= i < s.len() && s[i].0 == key),
    decreases s.len(),
{
    if s.len() > 0 {
        lemma_entries_map_domain(s.drop_last(), key);
        if s.last().0 == key {
            assert(s[s.len() - 1].0 == key);
        } else if exists|i: int| 0 <= i < s.len() && s[i].0 == key {
            let i = choose|i: int| 0 <= i < s.len() && s[i].0 == key;
            assert(s.drop_last()[i] == s[i]);
        }
    }
}

/// The described map carries, for each key, the value of its last entry.
proof fn lemma_entries_map_last_occurrence(s: Seq<(u64, Vec<u8>)>, i: int, key: u64)
    requires
        0 <= i < s.len(),
        s[i].0 == key,
        forall|j: int| i < j < s.len() ==> s[j].0 != key,
    ensures
        entries_map_spec(s).contains_key(key),
        entries_map_spec(s)[key] == s[i].1@,
    decreases s.len(),
{
    if i == s.len() - 1 {
    } else {
        assert(s.drop_last()[i] == s[i]);
        lemma_entries_map_last_occurrence(s.drop_last(), i, key);
    }
}

/// Overwriting the last entry of a key updates the described map exactly as
/// a map insert does.
proof fn lemma_entries_map_update(s: Seq<(u64, Vec<u8>)>, i: int, entry: (u64, Vec<u8>))
    requires
        0 <= i < s.len(),
        s[i].0 == entry.0,
        forall|j: int| i < j < s.len() ==> s[j].0 != entry.0,
    ensures
        entries_map_spec(s.update(i, entry)) == entries_map_spec(s).insert(entry.0, entry.1@),
    decreases s.len(),
{
    let updated = s.update(i, entry);
    if i == s.len() - 1 {
        assert(updated.drop_last() =~= s.drop_last());
        assert(entries_map_spec(updated) =~= entries_map_spec(s).insert(entry.0, entry.1@));
    } else {
        assert(updated.drop_last() =~= s.drop_last().update(i, entry));
        assert(s.drop_last()[i] == s[i]);
        lemma_entries_map_update(s.drop_last(), i, entry);
        assert(updated.last() == s.last());
        assert(entries_map_spec(updated) == entries_map_spec(
            s.drop_last(),
        ).insert(entry.0, entry.1@).insert(s.last().0, s.last().1@));
        assert(entries_map_spec(s.drop_last()).insert(entry.0, entry.1@).insert(
            s.last().0,
            s.last().1@,
        ) =~= entries_map_spec(s).insert(entry.0, entry.1@));
    }
}

/// One slot per storage key, overwritten in place: the executable form of a
/// map from algorithm identity to latest state.
pub struct StateTable {
    entries: Vec<(u64, Vec<u8>)>,
}

impl StateTable {
    /// The map this table holds.
    pub closed spec fn as_map(&self) -> Map<u64, Seq<u8>> {
        entries_map_spec(self.entries@)
    }

    /// An empty table.
    pub fn new() -> (r: Self)
        ensures
            r.as_map() == Map::<u64, Seq<u8>>::empty(),
    {
        Self { entries: Vec::new() }
    }

    /// The value stored under a key, copied out, or `None`.
    pub fn get(&self, key: u64) -> (r: Option<Vec<u8>>)
        ensures
            self.as_map().contains_key(key) ==> (r matches Some(v) && v@ == self.as_map()[key]),
            !self.as_map().contains_key(key) ==> r is None,
    {
        let n: usize = self.entries.len();
        let mut i: usize = n;
        while i > 0
            invariant
                i <= n,
                n == self.entries@.len(),
                forall|j: int| i <= j < n ==> self.entries@[j].0 != key,
            decreases i,
        {
            i = i - 1;
            let entry: &(u64, Vec<u8>) = &self.entries[i];
            if entry.0 == key {
                proof {
                    lemma_entries_map_last_occurrence(self.entries@, i as int, key);
                }
                return Some(copy_bytes(entry.1.as_slice()));
            }
        }
        proof {
            lemma_entries_map_domain(self.entries@, key);
        }
        None
    }

    /// Stores a value under a key, overwriting the key's slot in place.
    pub fn set(&mut self, key: u64, value: Vec<u8>)
        ensures
            final(self).as_map() == old(self).as_map().insert(key, value@),
    {
        let n: usize = self.entries.len();
        let mut i: usize = n;
        while i > 0
            invariant
                i <= n,
                n == self.entries@.len(),
                self.entries@ == old(self).entries@,
                forall|j: int| i <= j < n ==> self.entries@[j].0 != key,
            decreases i,
        {
            i = i - 1;
            if self.entries[i].0 == key {
                self.entries[i] = (key, value);
                proof {
                    lemma_entries_map_update(
                        old(self).entries@,
                        i as int,
                        self.entries@[i as int],
                    );
                }
                return;
            }
        }
        self.entries.push((key, value));
        proof {
            assert(self.entries@.drop_last() =~= old(self).entries@);
            assert(self.as_map() =~= old(self).as_map().insert(key, value@));
        }
    }
}

/// The kind of key chain a `DefaultStorage` instance serves.
#[derive(Clone, Copy, Debug)]
pub enum KeyChainType {
    HkdfKeyChain,
    PrgKeyChain,
    XdrbgKeyChain,
}

/// The reference storage implementation: one independent in-memory
/// partition per key-chain kind, of which exactly one is configured.
pub struct DefaultStorage {
    hkdf_map: Option<StateTable>,
    prg_map: Option<StateTable>,
    xdrbg_map: Option<StateTable>,
}

impl DefaultStorage {
    /// A storage instance configured for exactly one key-chain kind.
    pub fn new(key_chain_type: KeyChainType) -> (r: Self)
        ensures
            r.hkdf_configured() == (key_chain_type is HkdfKeyChain),
            r.prg_configured() == (key_chain_type is PrgKeyChain),
            r.xdrbg_configured() == (key_chain_type is XdrbgKeyChain),
            r.hkdf_states() == Map::<u64, Seq<u8>>::empty(),
            r.prg_states() == Map::<u64, Seq<u8>>::empty(),
            r.xdrbg_states() == Map::<u64, Seq<u8>>::empty(),
    {
        match key_chain_type {
            KeyChainType::HkdfKeyChain => Self {
                hkdf_map: Some(StateTable::new()),
                prg_map: None,
                xdrbg_map: None,
            },
            KeyChainType::PrgKeyChain => Self {
                hkdf_map: None,
                prg_map: Some(StateTable::new()),
                xdrbg_map: None,
            },
            KeyChainType::XdrbgKeyChain => Self {
                hkdf_map: None,
                prg_map: None,
                xdrbg_map: Some(StateTable::new()),
            },
        }
    }
}

impl Storage for DefaultStorage {
    closed spec fn hkdf_configured(&self) -> bool {
        self.hkdf_map is Some
    }

    closed spec fn prg_configured(&self) -> bool {
        self.prg_map is Some
    }

    closed spec fn xdrbg_configured(&self) -> bool {
        self.xdrbg_map is Some
    }

    closed spec fn hkdf_states(&self) -> Map<u64, Seq<u8>> {
        match self.hkdf_map {
            Some(table) => table.as_map(),
            None => Map::empty(),
        }
    }

    closed spec fn prg_states(&self) -> Map<u64, Seq<u8>> {
        match self.prg_map {
            Some(table) => table.as_map(),
            None => Map::empty(),
        }
    }

    closed spec fn xdrbg_states(&self) -> Map<u64, Seq<u8>> {
        match self.xdrbg_map {
            Some(table) => table.as_map(),
            None => Map::empty(),
        }
    }

    fn store_state_for_hkdf_keychain(&mut self, state_of_key_chain: &[u8], hash_func: HashFunc) {
        match &mut self.hkdf_map {
            Some(table) => {
                let key: u64 = hash_func_id(hash_func);
                table.set(key, copy_bytes(state_of_key_chain));
            },
            None => {},
        }
    }

    fn store_state_for_prg_keychain(
        &mut self,
        state_of_key_chain: &[u8],
        security_param_lambda: usize,
    ) {
        match &mut self.prg_map {
            Some(table) => {
                table.set(security_param_lambda as u64, copy_bytes(state_of_key_chain));
            },
            None => {},
        }
    }

    fn store_state_for_xdrbg_keychain(&mut self, state_of_key_chain: &[u8], xof: Xof) {
        match &mut self.xdrbg_map {
            Some(table) => {
                let key: u64 = xof_id(xof);
                table.set(key, copy_bytes(state_of_key_chain));
            },
            None => {},
        }
    }

    fn fetch_hkdf_keychain_state(&self, hash_func: HashFunc) -> (r: Result<Vec<u8>, Errors>) {
        match &self.hkdf_map {
            Some(table) => match table.get(hash_func_id(hash_func)) {
                Some(state) => Ok(state),
                None => Err(Errors::NoStoredState(String::from_str(
                    "No Hkdf state found for the given hash function.",
                ))),
            },
            None => Err(Errors::UninitializedStorage(String::from_str(
                "Hkdf keychain storage not initialized.",
            ))),
        }
    }

    fn fetch_prg_keychain_state(&self, security_param_lambda: usize) -> (r: Result<
        Vec<u8>,
        Errors,
    >) {
        match &self.prg_map {
            Some(table) => match table.get(security_param_lambda as u64) {
                Some(state) => Ok(state),
                None => Err(Errors::NoStoredState(String::from_str(
                    "No Prg state found for the given security parameter.",
                ))),
            },
            None => Err(Errors::UninitializedStorage(String::from_str(
                "Prg keychain storage not initialized.",
            ))),
        }
    }

    fn fetch_xdrbg_keychain_state(&self, xof: Xof) -> (r: Result<Vec<u8>, Errors>) {
        match &self.xdrbg_map {
            Some(table) => match table.get(xof_id(xof)) {
                Some(state) => Ok(state),
                None => Err(Errors::NoStoredState(String::from_str(
                    "No Xdrbg state found for the given XOF.",
                ))),
            },
            None => Err(Errors::UninitializedStorage(String::from_str(
                "Xdrbg keychain storage not initialized.",
            ))),
        }
    }
}

/// Law: storing a state under an algorithm identity makes that identity's
/// slot hold exactly that state — what a subsequent fetch for the identity
/// returns, by the fetch contract.
pub proof fn stored_state_round_trip(states: Map<u64, Seq<u8>>, identity: u64, new_state: Seq<u8>)
    ensures
        states.insert(identity, new_state).contains_key(identity),
        states.insert(identity, new_state)[identity] == new_state,
{
}

} // verus!
