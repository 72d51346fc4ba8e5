use vstd::prelude::*;
use crate::address::Address;
use crate::bytes::{i32_from_le, read_i32_le, read_u64_le, u64_from_le};
use crate::error::SwapError;

verus! {

/// The structured view of a tick-range account: its starting tick index
/// and the pool it declares itself part of.
#[derive(Debug)]
pub struct TickRangeData {
    pub start_tick_index: i32,
    pub whirlpool: Address,
}

/// The fields of the pool state account that validation and forwarding
/// read: the two mints, the two recorded vault addresses, and the current
/// price-tick index.
#[derive(Debug)]
pub struct PoolStateData {
    pub tick_current_index: i32,
    pub token_mint_a: Address,
    pub token_mint_b: Address,
    pub token_vault_a: Address,
    pub token_vault_b: Address,
}

/// The fields of a token account that validation reads: its owning mint,
/// its owner authority, and its balance.
#[derive(Debug)]
pub struct TokenAccountData {
    pub mint: Address,
    pub owner: Address,
    pub amount: u64,
}

/// A buffer has the tick-range layout: the account's eight-byte tag, a
/// four-byte starting tick index, 88 per-tick records of 113 bytes each,
/// and the 32-byte pool back-reference at the tail — 9988 bytes in all.
pub open spec fn tick_range_layout_ok(d: Seq<u8>) -> bool {
    d.len() == 9988 && d[0] == 69 && d[1] == 97 && d[2] == 189 && d[3] == 190 && d[4] == 110
        && d[5] == 7 && d[6] == 66 && d[7] == 187
}

/// A buffer has the pool state layout: the account's eight-byte tag
/// followed by the pool's fixed-size fields, 653 bytes in all.
pub open spec fn pool_layout_ok(d: Seq<u8>) -> bool {
    d.len() == 653 && d[0] == 63 && d[1] == 149 && d[2] == 209 && d[3] == 12 && d[4] == 225
        && d[5] == 128 && d[6] == 99 && d[7] == 9
}

/// A buffer has the token-account layout of the token-account standard:
/// 165 bytes, mint first, owner second, then the 64-bit balance.
pub open spec fn token_account_layout_ok(d: Seq<u8>) -> bool {
    d.len() == 165
}

/// A fresh copy of the 32 bytes stored at `off`, as an address.
pub fn read_address(data: &Vec<u8>, off: usize) -> (r: Address)
    requires
        off + 32 <= data@.len(),
    ensures
        r@ == data@.subrange(off as int, off as int + 32),
        r.wf(),
{
    let _total: usize = data.len();
    let mut bytes: Vec<u8> = Vec::new();
    let mut i: usize = 0;
    while i < 32
        invariant
            i <= 32,
            off + 32 <= data@.len(),
            data@.len() <= usize::MAX,
            bytes@ =~= data@.subrange(off as int, off as int + i as int),
        decreases 32 - i,
    {
        bytes.push(data[off + i]);
        i += 1;
    }
    assert(bytes@ =~= data@.subrange(off as int, off as int + 32));
    Address { bytes }
}

/// Deserializes a raw tick-range account buffer into its structured view:
/// the starting tick index read little-endian behind the tag, and the pool
/// back-reference at the tail. Rejects any buffer whose length or account
/// tag does not match the tick-range layout.
pub fn read_tick_range(data: &Vec<u8>) -> (r: Result<TickRangeData, SwapError>)
    ensures
        r is Ok <==> tick_range_layout_ok(data@),
        r matches Ok(v) ==> v.start_tick_index == i32_from_le(data@.subrange(8, 12))
            && v.whirlpool@ == data@.subrange(9956, 9988) && v.whirlpool.wf(),
        r matches Err(e) ==> e == SwapError::DeserializationFailure,
{
    if data.len() != 9988 {
        return Err(SwapError::DeserializationFailure);
    }
    if data[0] != 69 || data[1] != 97 || data[2] != 189 || data[3] != 190 || data[4] != 110
        || data[5] != 7 || data[6] != 66 || data[7] != 187 {
        return Err(SwapError::DeserializationFailure);
    }
    let start_tick_index = read_i32_le(data, 8);
    let whirlpool = read_address(data, 9956);
    Ok(TickRangeData { start_tick_index, whirlpool })
}

/// Deserializes a raw pool state account buffer into the fields this layer
/// reads. Behind the tag stand, in order, the pool's configuration
/// reference (32 bytes), its bump byte, tick spacing and its seed (4
/// bytes), two fee rates (4 bytes), liquidity and square-root price (16
/// bytes each) — which places the current tick index at byte 81, the A
/// mint at 101, the A vault at 133, the B mint at 181 and the B vault at
/// 213. Rejects any buffer whose length or account tag does not match.
pub fn read_pool_state(data: &Vec<u8>) -> (r: Result<PoolStateData, SwapError>)
    ensures
        r is Ok <==> pool_layout_ok(data@),
        r matches Ok(v) ==> v.tick_current_index == i32_from_le(data@.subrange(81, 85))
            && v.token_mint_a@ == data@.subrange(101, 133)
            && v.token_vault_a@ == data@.subrange(133, 165)
            && v.token_mint_b@ == data@.subrange(181, 213)
            && v.token_vault_b@ == data@.subrange(213, 245)
            && v.token_mint_a.wf() && v.token_vault_a.wf()
            && v.token_mint_b.wf() && v.token_vault_b.wf(),
        r matches Err(e) ==> e == SwapError::DeserializationFailure,
{
    if data.len() != 653 {
        return Err(SwapError::DeserializationFailure);
    }
    if data[0] != 63 || data[1] != 149 || data[2] != 209 || data[3] != 12 || data[4] != 225
        || data[5] != 128 || data[6] != 99 || data[7] != 9 {
        return Err(SwapError::DeserializationFailure);
    }
    let tick_current_index = read_i32_le(data, 81);
    let token_mint_a = read_address(data, 101);
    let token_vault_a = read_address(data, 133);
    let token_mint_b = read_address(data, 181);
    let token_vault_b = read_address(data, 213);
    Ok(PoolStateData { tick_current_index, token_mint_a, token_mint_b, token_vault_a, token_vault_b })
}

/// Deserializes a raw token account of the token-account standard: the
/// mint, the owner authority, and the balance, at their fixed offsets.
/// Rejects any buffer that is not exactly one token account long.
pub fn read_token_account(data: &Vec<u8>) -> (r: Result<TokenAccountData, SwapError>)
    ensures
        r is Ok <==> token_account_layout_ok(data@),
        r matches Ok(v) ==> v.mint@ == data@.subrange(0, 32) && v.owner@ == data@.subrange(32, 64)
            && v.amount == u64_from_le(data@.subrange(64, 72)) && v.mint.wf() && v.owner.wf(),
        r matches Err(e) ==> e == SwapError::DeserializationFailure,
{
    if data.len() != 165 {
        return Err(SwapError::DeserializationFailure);
    }
    let mint = read_address(data, 0);
    let owner = read_address(data, 32);
    let amount = read_u64_le(data, 64);
    Ok(TokenAccountData { mint, owner, amount })
}

} // verus!
