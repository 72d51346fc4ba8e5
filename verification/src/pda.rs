use vstd::prelude::*;
use crate::address::Address;

verus! {

/// The deterministic oracle derivation of the external pool program's
/// addressing scheme: the address derived from the literal seed `"oracle"`
/// and a pool address, under the namespace of `program`, or `None` in the
/// statistically improbable event that no derivation exists. Its value is a
/// function of the two addresses alone; it is given a name rather than a
/// formula because the derivation is a hash-based search.
pub uninterp spec fn oracle_pda(program: Seq<u8>, pool: Seq<u8>) -> Option<Seq<u8>>;

/// Relies on `solana_program::pubkey::Pubkey::try_find_program_address`,
/// called with the fixed seed `b"oracle"` and the pool address under the
/// pool program's namespace: the result depends on the two addresses alone,
/// a derived address is 32 bytes, and `None` comes exactly when no bump
/// seed yields a derivable address.
#[verifier::external_body]
pub(crate) fn derive_oracle_address(program: &Address, pool: &Address) -> (r: Option<Address>)
    requires
        program.wf(),
        pool.wf(),
    ensures
        r is Some <==> oracle_pda(program@, pool@) is Some,
        r matches Some(a) ==> oracle_pda(program@, pool@) == Some(a@) && a.wf(),
{
    let program_id = solana_program::pubkey::Pubkey::try_from(program.bytes.as_slice()).unwrap();
    let seeds: [&[u8]; 2] = [b"oracle", pool.bytes.as_slice()];
    match solana_program::pubkey::Pubkey::try_find_program_address(&seeds, &program_id) {
        Some((addr, _bump)) => Some(Address { bytes: addr.to_bytes().to_vec() }),
        None => None,
    }
}

/// The 32 bytes of the well-known token-account-standard program identity
/// (base58 `TokenkegQfeZyiNwAJbNbGKPFXCWuBvf9Ss623VQ5DA`).
pub open spec fn spl_token_id() -> Seq<u8> {
    seq![
        6u8, 221, 246, 225, 215, 101, 161, 147, 217, 203, 225, 70, 206, 235, 121, 172,
        28, 180, 133, 237, 95, 91, 55, 145, 58, 140, 245, 133, 126, 255, 0, 169,
    ]
}

/// The token-account-standard program identity built in plain code: the
/// same bytes `spl_token_id` states, so a caller can hold the trusted
/// constant against the token crate's own declaration.
pub fn token_program_id_bytes() -> (r: Vec<u8>)
    ensures
        r@ == spl_token_id(),
{
    let mut v: Vec<u8> = Vec::new();
    v.push(6);
    v.push(221);
    v.push(246);
    v.push(225);
    v.push(215);
    v.push(101);
    v.push(161);
    v.push(147);
    v.push(217);
    v.push(203);
    v.push(225);
    v.push(70);
    v.push(206);
    v.push(235);
    v.push(121);
    v.push(172);
    v.push(28);
    v.push(180);
    v.push(133);
    v.push(237);
    v.push(95);
    v.push(91);
    v.push(55);
    v.push(145);
    v.push(58);
    v.push(140);
    v.push(245);
    v.push(133);
    v.push(126);
    v.push(255);
    v.push(0);
    v.push(169);
    assert(v@ =~= spl_token_id());
    v
}

/// Relies on `anchor_spl::token::ID` (the re-export of the token-account
/// standard's declared program identity): its bytes are the fixed constant
/// `spl_token_id` states.
#[verifier::external_body]
pub(crate) fn token_program_id() -> (r: Address)
    ensures
        r@ == spl_token_id(),
        r.wf(),
{
    Address { bytes: anchor_spl::token::ID.to_bytes().to_vec() }
}

} // verus!
