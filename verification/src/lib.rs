//! A relay in front of an external liquidity-pool program's swap entry
//! point: it validates that every account a request supplies stands in the
//! expected structural relationship to the named pool, then constructs the
//! outbound invocation — the fixed account order, the instruction tag and
//! the little-endian argument payload — with the caller's economic
//! parameters passed through unchanged. All swap arithmetic is the pool
//! program's own; this crate proves only that nothing is forwarded unless
//! the account set is consistent, and that what is forwarded is exactly
//! what was asked for.

pub mod address;
pub mod accounts;
pub mod bytes;
pub mod error;
pub mod pda;
pub mod readers;
pub mod validate;
pub mod whirlpool_swap;

use vstd::prelude::*;
use crate::accounts::WhirlpoolSwap;
use crate::error::SwapError;
use crate::validate::{valid_swap_accounts, validate, validate_result};
use crate::whirlpool_swap::{handler, swap_instruction_matches, SwapArgs, SwapInstruction};

verus! {

/// The single externally callable operation: validate the supplied account
/// set against the named pool and, only if every structural constraint
/// holds, produce the invocation to forward — the caller's five parameters
/// untouched, the account list in the pool program's wire order. On a
/// violated constraint nothing is built and the specific error names the
/// first check that failed.
pub fn proxy_swap(
    accounts: &WhirlpoolSwap,
    amount: u64,
    other_amount_threshold: u64,
    sqrt_price_limit: u128,
    amount_specified_is_input: bool,
    a_to_b: bool,
) -> (r: Result<SwapInstruction, SwapError>)
    requires
        accounts.wf(),
    ensures
        r is Ok <==> valid_swap_accounts(*accounts),
        r matches Ok(ix) ==> swap_instruction_matches(
            *accounts,
            (SwapArgs {
                amount,
                other_amount_threshold,
                sqrt_price_limit,
                amount_specified_is_input,
                a_to_b,
            }),
            ix,
        ),
        r matches Err(e) ==> validate_result(*accounts) == Err::<(), SwapError>(e),
{
    match validate(accounts) {
        Err(e) => Err(e),
        Ok(()) => Ok(
            handler(
                accounts,
                amount,
                other_amount_threshold,
                sqrt_price_limit,
                amount_specified_is_input,
                a_to_b,
            ),
        ),
    }
}

} // verus!
