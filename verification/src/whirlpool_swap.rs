use vstd::prelude::*;
use crate::accounts::{AccountMetaInfo, AccountMetaV, WhirlpoolSwap};
use crate::address::Address;
use crate::bytes::{
    bool_byte, lemma_u128_le_bytes_injective, lemma_u64_le_bytes_injective, push_u128_le,
    push_u64_le, u128_le_bytes, u64_le_bytes,
};
use crate::validate::valid_swap_accounts;

verus! {

/// The five economic parameters of a swap request, forwarded untouched.
#[derive(Clone, Copy, PartialEq, Eq, Structural, Debug)]
pub struct SwapArgs {
    pub amount: u64,
    pub other_amount_threshold: u64,
    pub sqrt_price_limit: u128,
    pub amount_specified_is_input: bool,
    pub a_to_b: bool,
}

/// The outbound invocation, ready to issue: the destination program, the
/// account list in the pool program's wire order, and the encoded payload.
#[derive(Debug)]
pub struct SwapInstruction {
    pub program_id: Address,
    pub accounts: Vec<AccountMetaInfo>,
    pub data: Vec<u8>,
}

/// The eight-byte tag that selects the pool program's swap entry point.
pub open spec fn swap_discriminator() -> Seq<u8> {
    seq![248u8, 198u8, 158u8, 145u8, 225u8, 117u8, 135u8, 200u8]
}

/// The exact payload of the forwarded call: the entry-point tag followed by
/// the five parameters, little-endian, in declaration order.
pub open spec fn swap_instruction_data(args: SwapArgs) -> Seq<u8> {
    swap_discriminator() + u64_le_bytes(args.amount) + u64_le_bytes(args.other_amount_threshold)
        + u128_le_bytes(args.sqrt_price_limit)
        + seq![bool_byte(args.amount_specified_is_input), bool_byte(args.a_to_b)]
}

/// The account list of the forwarded call, in the fixed wire order the pool
/// program deserializes: pool state, token program, authority, caller
/// account A, vault A, caller account B, vault B, the three tick ranges,
/// oracle. All but the token program and the authority are passed writable;
/// only the authority signs.
pub open spec fn swap_account_metas(acc: WhirlpoolSwap) -> Seq<AccountMetaV> {
    seq![
        AccountMetaV { address: acc.whirlpool.meta.address@, is_writable: true, is_signer: false },
        AccountMetaV { address: acc.token_program.address@, is_writable: false, is_signer: false },
        AccountMetaV { address: acc.token_authority.address@, is_writable: false, is_signer: true },
        AccountMetaV {
            address: acc.token_owner_account_a.meta.address@,
            is_writable: true,
            is_signer: false,
        },
        AccountMetaV { address: acc.token_vault_a.meta.address@, is_writable: true, is_signer: false },
        AccountMetaV {
            address: acc.token_owner_account_b.meta.address@,
            is_writable: true,
            is_signer: false,
        },
        AccountMetaV { address: acc.token_vault_b.meta.address@, is_writable: true, is_signer: false },
        AccountMetaV { address: acc.tick_array_0.meta.address@, is_writable: true, is_signer: false },
        AccountMetaV { address: acc.tick_array_1.meta.address@, is_writable: true, is_signer: false },
        AccountMetaV { address: acc.tick_array_2.meta.address@, is_writable: true, is_signer: false },
        AccountMetaV { address: acc.oracle.address@, is_writable: true, is_signer: false },
    ]
}

/// The account list of an already built invocation, as mathematical values.
pub open spec fn forwarded_metas(ix: SwapInstruction) -> Seq<AccountMetaV> {
    ix.accounts@.map_values(|m: AccountMetaInfo| m@)
}

/// A built invocation is exactly the forwarding of `args` over `acc`: right
/// destination, the fixed account order, and the payload that encodes the
/// caller's parameters bit for bit.
pub open spec fn swap_instruction_matches(
    acc: WhirlpoolSwap,
    args: SwapArgs,
    ix: SwapInstruction,
) -> bool {
    ix.program_id@ == acc.whirlpool_program.address@
        && forwarded_metas(ix) == swap_account_metas(acc)
        && ix.data@ == swap_instruction_data(args)
}

/// Encodes the swap parameters behind the entry-point tag, little-endian,
/// in declaration order.
pub fn encode_swap_args(args: &SwapArgs) -> (r: Vec<u8>)
    ensures
        r@ == swap_instruction_data(*args),
{
    let mut v: Vec<u8> = Vec::new();
    v.push(248);
    v.push(198);
    v.push(158);
    v.push(145);
    v.push(225);
    v.push(117);
    v.push(135);
    v.push(200);
    assert(v@ =~= swap_discriminator());
    push_u64_le(&mut v, args.amount);
    push_u64_le(&mut v, args.other_amount_threshold);
    push_u128_le(&mut v, args.sqrt_price_limit);
    if args.amount_specified_is_input {
        v.push(1);
    } else {
        v.push(0);
    }
    if args.a_to_b {
        v.push(1);
    } else {
        v.push(0);
    }
    assert(v@ =~= swap_instruction_data(*args));
    v
}

/// Builds the outbound invocation: the account list in the pool program's
/// wire order and the encoded parameter payload, addressed to the program
/// the request named.
pub fn build_swap_instruction(accounts: &WhirlpoolSwap, args: &SwapArgs) -> (ix: SwapInstruction)
    ensures
        swap_instruction_matches(*accounts, *args, ix),
{
    let mut metas: Vec<AccountMetaInfo> = Vec::new();
    metas.push(AccountMetaInfo {
        address: accounts.whirlpool.meta.address.duplicate(),
        is_writable: true,
        is_signer: false,
    });
    metas.push(AccountMetaInfo {
        address: accounts.token_program.address.duplicate(),
        is_writable: false,
        is_signer: false,
    });
    metas.push(AccountMetaInfo {
        address: accounts.token_authority.address.duplicate(),
        is_writable: false,
        is_signer: true,
    });
    metas.push(AccountMetaInfo {
        address: accounts.token_owner_account_a.meta.address.duplicate(),
        is_writable: true,
        is_signer: false,
    });
    metas.push(AccountMetaInfo {
        address: accounts.token_vault_a.meta.address.duplicate(),
        is_writable: true,
        is_signer: false,
    });
    metas.push(AccountMetaInfo {
        address: accounts.token_owner_account_b.meta.address.duplicate(),
        is_writable: true,
        is_signer: false,
    });
    metas.push(AccountMetaInfo {
        address: accounts.token_vault_b.meta.address.duplicate(),
        is_writable: true,
        is_signer: false,
    });
    metas.push(AccountMetaInfo {
        address: accounts.tick_array_0.meta.address.duplicate(),
        is_writable: true,
        is_signer: false,
    });
    metas.push(AccountMetaInfo {
        address: accounts.tick_array_1.meta.address.duplicate(),
        is_writable: true,
        is_signer: false,
    });
    metas.push(AccountMetaInfo {
        address: accounts.tick_array_2.meta.address.duplicate(),
        is_writable: true,
        is_signer: false,
    });
    metas.push(AccountMetaInfo {
        address: accounts.oracle.address.duplicate(),
        is_writable: true,
        is_signer: false,
    });
    let ix = SwapInstruction {
        program_id: accounts.whirlpool_program.address.duplicate(),
        accounts: metas,
        data: encode_swap_args(args),
    };
    assert(forwarded_metas(ix) =~= swap_account_metas(*accounts));
    ix
}

/// The handler body of a request whose accounts already passed validation:
/// it produces the forwarded invocation and nothing else.
pub fn handler(
    accounts: &WhirlpoolSwap,
    amount: u64,
    other_amount_threshold: u64,
    sqrt_price_limit: u128,
    amount_specified_is_input: bool,
    a_to_b: bool,
) -> (ix: SwapInstruction)
    requires
        valid_swap_accounts(*accounts),
    ensures
        swap_instruction_matches(
            *accounts,
            (SwapArgs {
                amount,
                other_amount_threshold,
                sqrt_price_limit,
                amount_specified_is_input,
                a_to_b,
            }),
            ix,
        ),
{
    let args = SwapArgs {
        amount,
        other_amount_threshold,
        sqrt_price_limit,
        amount_specified_is_input,
        a_to_b,
    };
    build_swap_instruction(accounts, &args)
}

/// The forwarded account list depends on the supplied accounts alone: two
/// requests over one account set forward the accounts in the identical
/// order, whatever their parameters.
pub proof fn lemma_account_order_param_independent(
    acc: WhirlpoolSwap,
    args1: SwapArgs,
    args2: SwapArgs,
    ix1: SwapInstruction,
    ix2: SwapInstruction,
)
    requires
        swap_instruction_matches(acc, args1, ix1),
        swap_instruction_matches(acc, args2, ix2),
    ensures
        forwarded_metas(ix1) == forwarded_metas(ix2),
        ix1.program_id@ == ix2.program_id@,
{
}

/// The addresses of the request's own eleven accounts.
pub open spec fn supplied_addresses(acc: WhirlpoolSwap) -> Set<Seq<u8>> {
    set![
        acc.whirlpool.meta.address@,
        acc.token_program.address@,
        acc.token_authority.address@,
        acc.token_owner_account_a.meta.address@,
        acc.token_vault_a.meta.address@,
        acc.token_owner_account_b.meta.address@,
        acc.token_vault_b.meta.address@,
        acc.tick_array_0.meta.address@,
        acc.tick_array_1.meta.address@,
        acc.tick_array_2.meta.address@,
        acc.oracle.address@,
    ]
}

/// The forwarded call touches no account beyond the declared set: every
/// entry of the outbound account list is one of the request's own accounts,
/// and the destination is the pool program the request named.
pub proof fn lemma_forwarded_accounts_are_supplied(
    acc: WhirlpoolSwap,
    args: SwapArgs,
    ix: SwapInstruction,
)
    requires
        swap_instruction_matches(acc, args, ix),
    ensures
        forall|i: int|
            0 <= i < forwarded_metas(ix).len() ==> supplied_addresses(acc).contains(
                forwarded_metas(ix)[i].address,
            ),
        ix.program_id@ == acc.whirlpool_program.address@,
{
    assert forall|i: int| 0 <= i < forwarded_metas(ix).len() implies supplied_addresses(
        acc,
    ).contains(forwarded_metas(ix)[i].address) by {
        assert(forwarded_metas(ix)[i] == swap_account_metas(acc)[i]);
    }
}

/// Parameter pass-through is faithful: two parameter sets that encode to
/// the same forwarded payload are the same parameters, so the payload
/// carries the caller's values bit for bit.
pub proof fn lemma_payload_determines_args(args1: SwapArgs, args2: SwapArgs)
    requires
        swap_instruction_data(args1) == swap_instruction_data(args2),
    ensures
        args1 == args2,
{
    let d1 = swap_instruction_data(args1);
    let d2 = swap_instruction_data(args2);
    assert forall|i: int| 0 <= i < 8 implies u64_le_bytes(args1.amount)[i] == u64_le_bytes(
        args2.amount,
    )[i] by {
        assert(d1[8 + i] == u64_le_bytes(args1.amount)[i]);
        assert(d2[8 + i] == u64_le_bytes(args2.amount)[i]);
    }
    assert(u64_le_bytes(args1.amount) =~= u64_le_bytes(args2.amount));
    lemma_u64_le_bytes_injective(args1.amount, args2.amount);
    assert forall|i: int| 0 <= i < 8 implies u64_le_bytes(args1.other_amount_threshold)[i]
        == u64_le_bytes(args2.other_amount_threshold)[i] by {
        assert(d1[16 + i] == u64_le_bytes(args1.other_amount_threshold)[i]);
        assert(d2[16 + i] == u64_le_bytes(args2.other_amount_threshold)[i]);
    }
    assert(u64_le_bytes(args1.other_amount_threshold) =~= u64_le_bytes(
        args2.other_amount_threshold,
    ));
    lemma_u64_le_bytes_injective(args1.other_amount_threshold, args2.other_amount_threshold);
    assert forall|i: int| 0 <= i < 16 implies u128_le_bytes(args1.sqrt_price_limit)[i]
        == u128_le_bytes(args2.sqrt_price_limit)[i] by {
        assert(d1[24 + i] == u128_le_bytes(args1.sqrt_price_limit)[i]);
        assert(d2[24 + i] == u128_le_bytes(args2.sqrt_price_limit)[i]);
    }
    assert(u128_le_bytes(args1.sqrt_price_limit) =~= u128_le_bytes(args2.sqrt_price_limit));
    lemma_u128_le_bytes_injective(args1.sqrt_price_limit, args2.sqrt_price_limit);
    assert(d1[40] == bool_byte(args1.amount_specified_is_input));
    assert(d2[40] == bool_byte(args2.amount_specified_is_input));
    assert(args1.amount_specified_is_input == args2.amount_specified_is_input);
    assert(d1[41] == bool_byte(args1.a_to_b));
    assert(d2[41] == bool_byte(args2.a_to_b));
    assert(args1.a_to_b == args2.a_to_b);
}

} // verus!
