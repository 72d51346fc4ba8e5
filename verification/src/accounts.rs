use vstd::prelude::*;
use crate::address::Address;

verus! {

/// The mathematical value of one entry of an account list: an address plus
/// the two transaction-level permissions that travel with it.
pub ghost struct AccountMetaV {
    pub address: Seq<u8>,
    pub is_writable: bool,
    pub is_signer: bool,
}

/// One account as the enclosing transaction presents it: its address and
/// whether the transaction declared it writable and signed.
#[derive(Debug)]
pub struct AccountMetaInfo {
    pub address: Address,
    pub is_writable: bool,
    pub is_signer: bool,
}

impl View for AccountMetaInfo {
    type V = AccountMetaV;

    open spec fn view(&self) -> AccountMetaV {
        AccountMetaV {
            address: self.address@,
            is_writable: self.is_writable,
            is_signer: self.is_signer,
        }
    }
}

impl AccountMetaInfo {
    pub open spec fn wf(&self) -> bool {
        self.address.wf()
    }

    /// A fresh copy with the same address bytes and permissions.
    pub fn duplicate(&self) -> (r: AccountMetaInfo)
        ensures
            r@ == self@,
    {
        AccountMetaInfo {
            address: self.address.duplicate(),
            is_writable: self.is_writable,
            is_signer: self.is_signer,
        }
    }
}

/// A caller token account or a pool vault, reduced to what validation reads:
/// its transaction entry and its owning mint.
pub struct TokenAccountView {
    pub meta: AccountMetaInfo,
    pub mint: Address,
}

impl TokenAccountView {
    pub open spec fn wf(&self) -> bool {
        self.meta.wf() && self.mint.wf()
    }
}

/// The pool state account, reduced to what validation and forwarding read:
/// its transaction entry, its two mints, its two recorded vault addresses,
/// and the current price-tick index.
pub struct PoolAccountView {
    pub meta: AccountMetaInfo,
    pub token_mint_a: Address,
    pub token_mint_b: Address,
    pub token_vault_a: Address,
    pub token_vault_b: Address,
    pub tick_current_index: i32,
}

impl PoolAccountView {
    pub open spec fn wf(&self) -> bool {
        self.meta.wf() && self.token_mint_a.wf() && self.token_mint_b.wf()
            && self.token_vault_a.wf() && self.token_vault_b.wf()
    }
}

/// A tick-range account, reduced to its transaction entry, its stored
/// back-reference to a pool, and its starting tick index.
pub struct TickRangeAccountView {
    pub meta: AccountMetaInfo,
    pub whirlpool: Address,
    pub start_tick_index: i32,
}

impl TickRangeAccountView {
    pub open spec fn wf(&self) -> bool {
        self.meta.wf() && self.whirlpool.wf()
    }
}

/// The full account set of one swap request, in the order the request
/// declares it.
pub struct WhirlpoolSwap {
    pub whirlpool_program: AccountMetaInfo,
    pub token_program: AccountMetaInfo,
    pub token_authority: AccountMetaInfo,
    pub whirlpool: PoolAccountView,
    pub token_owner_account_a: TokenAccountView,
    pub token_vault_a: TokenAccountView,
    pub token_owner_account_b: TokenAccountView,
    pub token_vault_b: TokenAccountView,
    pub tick_array_0: TickRangeAccountView,
    pub tick_array_1: TickRangeAccountView,
    pub tick_array_2: TickRangeAccountView,
    pub oracle: AccountMetaInfo,
}

impl WhirlpoolSwap {
    pub open spec fn wf(&self) -> bool {
        self.whirlpool_program.wf() && self.token_program.wf() && self.token_authority.wf()
            && self.whirlpool.wf() && self.token_owner_account_a.wf() && self.token_vault_a.wf()
            && self.token_owner_account_b.wf() && self.token_vault_b.wf()
            && self.tick_array_0.wf() && self.tick_array_1.wf() && self.tick_array_2.wf()
            && self.oracle.wf()
    }
}

} // verus!
