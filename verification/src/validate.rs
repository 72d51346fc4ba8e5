use vstd::prelude::*;
use crate::accounts::WhirlpoolSwap;
use crate::address::address_eq;
use crate::error::SwapError;
use crate::pda::{derive_oracle_address, oracle_pda, spl_token_id, token_program_id};

verus! {

/// The token program reference is the well-known token-account-standard
/// program.
pub open spec fn token_program_ok(acc: WhirlpoolSwap) -> bool {
    acc.token_program.address@ == spl_token_id()
}

/// The swap authority signed the enclosing transaction.
pub open spec fn authority_signed(acc: WhirlpoolSwap) -> bool {
    acc.token_authority.is_signer
}

/// Every account the forwarded call mutates is writable in the enclosing
/// transaction: the pool, both caller accounts, both vaults, the three
/// tick-range accounts and the oracle.
pub open spec fn writable_ok(acc: WhirlpoolSwap) -> bool {
    acc.whirlpool.meta.is_writable
        && acc.token_owner_account_a.meta.is_writable
        && acc.token_vault_a.meta.is_writable
        && acc.token_owner_account_b.meta.is_writable
        && acc.token_vault_b.meta.is_writable
        && acc.tick_array_0.meta.is_writable
        && acc.tick_array_1.meta.is_writable
        && acc.tick_array_2.meta.is_writable
        && acc.oracle.is_writable
}

/// Each caller token account's mint equals the pool's corresponding mint.
pub open spec fn mints_ok(acc: WhirlpoolSwap) -> bool {
    acc.token_owner_account_a.mint@ == acc.whirlpool.token_mint_a@
        && acc.token_owner_account_b.mint@ == acc.whirlpool.token_mint_b@
}

/// Each supplied vault is, by address, the vault the pool state records.
pub open spec fn vaults_ok(acc: WhirlpoolSwap) -> bool {
    acc.token_vault_a.meta.address@ == acc.whirlpool.token_vault_a@
        && acc.token_vault_b.meta.address@ == acc.whirlpool.token_vault_b@
}

/// Each tick-range account's stored back-reference names the supplied pool.
pub open spec fn tick_ranges_linked(acc: WhirlpoolSwap) -> bool {
    acc.tick_array_0.whirlpool@ == acc.whirlpool.meta.address@
        && acc.tick_array_1.whirlpool@ == acc.whirlpool.meta.address@
        && acc.tick_array_2.whirlpool@ == acc.whirlpool.meta.address@
}

/// The supplied oracle is the deterministic derivation from the pool's
/// address under the pool program's namespace.
pub open spec fn oracle_ok(acc: WhirlpoolSwap) -> bool {
    oracle_pda(acc.whirlpool_program.address@, acc.whirlpool.meta.address@)
        == Some(acc.oracle.address@)
}

/// The whole gate: a request's account set is structurally consistent for
/// the named pool, in every relationship the validator checks.
pub open spec fn valid_swap_accounts(acc: WhirlpoolSwap) -> bool {
    token_program_ok(acc)
        && authority_signed(acc)
        && writable_ok(acc)
        && mints_ok(acc)
        && vaults_ok(acc)
        && tick_ranges_linked(acc)
        && oracle_ok(acc)
}

/// The exact outcome of validation: the checks run in the order the request
/// declares its accounts — token program, authority signature, then each
/// account's writability followed by its structural constraint — and the
/// first violated check names the error.
pub open spec fn validate_result(acc: WhirlpoolSwap) -> Result<(), SwapError> {
    if !token_program_ok(acc) {
        Err(SwapError::InvalidProgram)
    } else if !acc.token_authority.is_signer {
        Err(SwapError::ConstraintSigner)
    } else if !acc.whirlpool.meta.is_writable {
        Err(SwapError::ConstraintMut)
    } else if !acc.token_owner_account_a.meta.is_writable {
        Err(SwapError::ConstraintMut)
    } else if acc.token_owner_account_a.mint@ != acc.whirlpool.token_mint_a@ {
        Err(SwapError::ConstraintMintMismatch)
    } else if !acc.token_vault_a.meta.is_writable {
        Err(SwapError::ConstraintMut)
    } else if acc.token_vault_a.meta.address@ != acc.whirlpool.token_vault_a@ {
        Err(SwapError::ConstraintAddressMismatch)
    } else if !acc.token_owner_account_b.meta.is_writable {
        Err(SwapError::ConstraintMut)
    } else if acc.token_owner_account_b.mint@ != acc.whirlpool.token_mint_b@ {
        Err(SwapError::ConstraintMintMismatch)
    } else if !acc.token_vault_b.meta.is_writable {
        Err(SwapError::ConstraintMut)
    } else if acc.token_vault_b.meta.address@ != acc.whirlpool.token_vault_b@ {
        Err(SwapError::ConstraintAddressMismatch)
    } else if !acc.tick_array_0.meta.is_writable {
        Err(SwapError::ConstraintMut)
    } else if acc.tick_array_0.whirlpool@ != acc.whirlpool.meta.address@ {
        Err(SwapError::ConstraintHasOneMismatch)
    } else if !acc.tick_array_1.meta.is_writable {
        Err(SwapError::ConstraintMut)
    } else if acc.tick_array_1.whirlpool@ != acc.whirlpool.meta.address@ {
        Err(SwapError::ConstraintHasOneMismatch)
    } else if !acc.tick_array_2.meta.is_writable {
        Err(SwapError::ConstraintMut)
    } else if acc.tick_array_2.whirlpool@ != acc.whirlpool.meta.address@ {
        Err(SwapError::ConstraintHasOneMismatch)
    } else if !acc.oracle.is_writable {
        Err(SwapError::ConstraintMut)
    } else if !oracle_ok(acc) {
        Err(SwapError::ConstraintSeedsMismatch)
    } else {
        Ok(())
    }
}

/// Validation accepts exactly the structurally consistent account sets.
pub proof fn lemma_validate_result_accepts_valid(acc: WhirlpoolSwap)
    ensures
        validate_result(acc) is Ok <==> valid_swap_accounts(acc),
{
}

/// A violated constraint turns the request away under its own error kind:
/// whichever single family of constraints fails while every other family
/// holds, validation reports exactly that family's error — so the caller
/// can always tell which relationship was broken, and the request never
/// reaches the forwarding step.
pub proof fn lemma_single_violation_names_its_error(acc: WhirlpoolSwap)
    ensures
        !token_program_ok(acc) ==> validate_result(acc) == Err::<(), SwapError>(
            SwapError::InvalidProgram,
        ),
        token_program_ok(acc) && !authority_signed(acc) ==> validate_result(acc) == Err::<
            (),
            SwapError,
        >(SwapError::ConstraintSigner),
        token_program_ok(acc) && authority_signed(acc) && mints_ok(acc) && vaults_ok(acc)
            && tick_ranges_linked(acc) && oracle_ok(acc) && !writable_ok(acc) ==> validate_result(
            acc,
        ) == Err::<(), SwapError>(SwapError::ConstraintMut),
        token_program_ok(acc) && authority_signed(acc) && writable_ok(acc) && vaults_ok(acc)
            && tick_ranges_linked(acc) && oracle_ok(acc) && !mints_ok(acc) ==> validate_result(acc)
            == Err::<(), SwapError>(SwapError::ConstraintMintMismatch),
        token_program_ok(acc) && authority_signed(acc) && writable_ok(acc) && mints_ok(acc)
            && tick_ranges_linked(acc) && oracle_ok(acc) && !vaults_ok(acc) ==> validate_result(
            acc,
        ) == Err::<(), SwapError>(SwapError::ConstraintAddressMismatch),
        token_program_ok(acc) && authority_signed(acc) && writable_ok(acc) && mints_ok(acc)
            && vaults_ok(acc) && oracle_ok(acc) && !tick_ranges_linked(acc) ==> validate_result(
            acc,
        ) == Err::<(), SwapError>(SwapError::ConstraintHasOneMismatch),
        token_program_ok(acc) && authority_signed(acc) && writable_ok(acc) && mints_ok(acc)
            && vaults_ok(acc) && tick_ranges_linked(acc) && !oracle_ok(acc) ==> validate_result(
            acc,
        ) == Err::<(), SwapError>(SwapError::ConstraintSeedsMismatch),
{
}

/// Validation is a pure function of the account set: run again against an
/// unchanged set, it yields the same accept-or-reject outcome.
pub proof fn lemma_validation_idempotent(first: WhirlpoolSwap, second: WhirlpoolSwap)
    requires
        first == second,
    ensures
        validate_result(first) == validate_result(second),
{
}

/// Checks every structural constraint of the request, in declaration order,
/// before anything is forwarded.
pub fn validate(acc: &WhirlpoolSwap) -> (r: Result<(), SwapError>)
    requires
        acc.wf(),
    ensures
        r == validate_result(*acc),
        r is Ok <==> valid_swap_accounts(*acc),
{
    let expected_token_program = token_program_id();
    if !address_eq(&acc.token_program.address, &expected_token_program) {
        return Err(SwapError::InvalidProgram);
    }
    if !acc.token_authority.is_signer {
        return Err(SwapError::ConstraintSigner);
    }
    if !acc.whirlpool.meta.is_writable {
        return Err(SwapError::ConstraintMut);
    }
    if !acc.token_owner_account_a.meta.is_writable {
        return Err(SwapError::ConstraintMut);
    }
    if !address_eq(&acc.token_owner_account_a.mint, &acc.whirlpool.token_mint_a) {
        return Err(SwapError::ConstraintMintMismatch);
    }
    if !acc.token_vault_a.meta.is_writable {
        return Err(SwapError::ConstraintMut);
    }
    if !address_eq(&acc.token_vault_a.meta.address, &acc.whirlpool.token_vault_a) {
        return Err(SwapError::ConstraintAddressMismatch);
    }
    if !acc.token_owner_account_b.meta.is_writable {
        return Err(SwapError::ConstraintMut);
    }
    if !address_eq(&acc.token_owner_account_b.mint, &acc.whirlpool.token_mint_b) {
        return Err(SwapError::ConstraintMintMismatch);
    }
    if !acc.token_vault_b.meta.is_writable {
        return Err(SwapError::ConstraintMut);
    }
    if !address_eq(&acc.token_vault_b.meta.address, &acc.whirlpool.token_vault_b) {
        return Err(SwapError::ConstraintAddressMismatch);
    }
    if !acc.tick_array_0.meta.is_writable {
        return Err(SwapError::ConstraintMut);
    }
    if !address_eq(&acc.tick_array_0.whirlpool, &acc.whirlpool.meta.address) {
        return Err(SwapError::ConstraintHasOneMismatch);
    }
    if !acc.tick_array_1.meta.is_writable {
        return Err(SwapError::ConstraintMut);
    }
    if !address_eq(&acc.tick_array_1.whirlpool, &acc.whirlpool.meta.address) {
        return Err(SwapError::ConstraintHasOneMismatch);
    }
    if !acc.tick_array_2.meta.is_writable {
        return Err(SwapError::ConstraintMut);
    }
    if !address_eq(&acc.tick_array_2.whirlpool, &acc.whirlpool.meta.address) {
        return Err(SwapError::ConstraintHasOneMismatch);
    }
    if !acc.oracle.is_writable {
        return Err(SwapError::ConstraintMut);
    }
    let derived = derive_oracle_address(&acc.whirlpool_program.address, &acc.whirlpool.meta.address);
    match derived {
        None => Err(SwapError::ConstraintSeedsMismatch),
        Some(d) => {
            if !address_eq(&acc.oracle.address, &d) {
                Err(SwapError::ConstraintSeedsMismatch)
            } else {
                Ok(())
            }
        },
    }
}

} // verus!
