use vstd::prelude::*;

verus! {

/// Every way a swap request can be rejected before the call is forwarded.
///
/// The structural-constraint variants mirror the validator's checks one for
/// one, so a caller can tell exactly which relationship was broken; the
/// deserialization variant is raised only by the tick-range reader.
#[derive(Clone, Copy, PartialEq, Eq, Structural, Debug)]
pub enum SwapError {
    /// The token program reference is not the token-account-standard program.
    InvalidProgram,
    /// A caller token account's mint differs from the pool's corresponding mint.
    ConstraintMintMismatch,
    /// A vault's address differs from the address the pool state records.
    ConstraintAddressMismatch,
    /// A tick-range account's back-reference names a different pool.
    ConstraintHasOneMismatch,
    /// The oracle address is not the deterministic derivation from the pool.
    ConstraintSeedsMismatch,
    /// An account that the forwarded call mutates is not writable.
    ConstraintMut,
    /// The swap authority did not sign the enclosing transaction.
    ConstraintSigner,
    /// A raw account buffer does not have the expected binary layout.
    DeserializationFailure,
}

} // verus!
