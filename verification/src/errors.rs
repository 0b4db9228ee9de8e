use vstd::prelude::*;

verus! {

/// Failures reported to the caller. All of them are deterministic validation
/// or storage-lookup failures; none is transient and none is retried.
#[derive(Debug, Clone)]
pub enum Errors {
    /// A length-bounded parameter (salt, alpha, requested output, seed)
    /// violates its primitive-specific bound.
    InvalidLength(String),
    /// A PRG state / cipher key is not 16, 24 or 32 bytes.
    InvalidInputKeyLength(String),
    /// The two inputs of a bytewise XOR have unequal lengths.
    XORLengthMismatch(String),
    /// An operation's result was consumed as the wrong step's output
    /// (defensive; unreachable under correct call sequencing).
    UnexpectedOutputType(String),
    /// Persistence was requested without a configured storage handle, or the
    /// storage instance was never configured for the key-chain kind.
    UninitializedStorage(String),
    /// A fetch on an algorithm identity with no previously stored state.
    NoStoredState(String),
}

} // verus!
