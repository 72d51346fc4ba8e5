use orcacpi::accounts::{
    AccountMetaInfo, PoolAccountView, TickRangeAccountView, TokenAccountView, WhirlpoolSwap,
};
use orcacpi::address::Address;
use orcacpi::error::SwapError;
use orcacpi::proxy_swap;
use orcacpi::readers::{read_pool_state, read_tick_range, read_token_account};

fn addr(fill: u8) -> Address {
    Address { bytes: vec![fill; 32] }
}

fn meta(fill: u8, is_writable: bool, is_signer: bool) -> AccountMetaInfo {
    AccountMetaInfo { address: addr(fill), is_writable, is_signer }
}

fn token_program_meta() -> AccountMetaInfo {
    AccountMetaInfo {
        address: Address { bytes: anchor_spl::token::ID.to_bytes().to_vec() },
        is_writable: false,
        is_signer: false,
    }
}

fn derived_oracle(program_fill: u8, pool_fill: u8) -> Address {
    let program = solana_program::pubkey::Pubkey::new_from_array([program_fill; 32]);
    let pool = solana_program::pubkey::Pubkey::new_from_array([pool_fill; 32]);
    let (oracle, _bump) =
        solana_program::pubkey::Pubkey::find_program_address(&[b"oracle", pool.as_ref()], &program);
    Address { bytes: oracle.to_bytes().to_vec() }
}

/// A fully consistent request: pool program 7, pool 1, mints 2 and 3,
/// vaults 4 and 5, authority 6, caller accounts 8 and 9, tick ranges
/// 10 to 12, oracle derived from the pool under program 7.
fn consistent_accounts() -> WhirlpoolSwap {
    WhirlpoolSwap {
        whirlpool_program: meta(7, false, false),
        token_program: token_program_meta(),
        token_authority: meta(6, false, true),
        whirlpool: PoolAccountView {
            meta: meta(1, true, false),
            token_mint_a: addr(2),
            token_mint_b: addr(3),
            token_vault_a: addr(4),
            token_vault_b: addr(5),
            tick_current_index: 128,
        },
        token_owner_account_a: TokenAccountView { meta: meta(8, true, false), mint: addr(2) },
        token_vault_a: TokenAccountView { meta: meta(4, true, false), mint: addr(2) },
        token_owner_account_b: TokenAccountView { meta: meta(9, true, false), mint: addr(3) },
        token_vault_b: TokenAccountView { meta: meta(5, true, false), mint: addr(3) },
        tick_array_0: TickRangeAccountView {
            meta: meta(10, true, false),
            whirlpool: addr(1),
            start_tick_index: -2816,
        },
        tick_array_1: TickRangeAccountView {
            meta: meta(11, true, false),
            whirlpool: addr(1),
            start_tick_index: 0,
        },
        tick_array_2: TickRangeAccountView {
            meta: meta(12, true, false),
            whirlpool: addr(1),
            start_tick_index: 2816,
        },
        oracle: AccountMetaInfo {
            address: derived_oracle(7, 1),
            is_writable: true,
            is_signer: false,
        },
    }
}

fn expected_data(
    amount: u64,
    other_amount_threshold: u64,
    sqrt_price_limit: u128,
    amount_specified_is_input: bool,
    a_to_b: bool,
) -> Vec<u8> {
    let mut d = vec![248u8, 198, 158, 145, 225, 117, 135, 200];
    d.extend_from_slice(&amount.to_le_bytes());
    d.extend_from_slice(&other_amount_threshold.to_le_bytes());
    d.extend_from_slice(&sqrt_price_limit.to_le_bytes());
    d.push(amount_specified_is_input as u8);
    d.push(a_to_b as u8);
    d
}

#[test]
fn token_program_identity_matches_the_token_crate() {
    assert_eq!(
        orcacpi::pda::token_program_id_bytes(),
        anchor_spl::token::ID.to_bytes().to_vec()
    );
}

#[test]
fn consistent_request_is_forwarded() {
    let accounts = consistent_accounts();
    let r = proxy_swap(&accounts, 1000, 0, 79226673515401279992447579055, true, true);
    let ix = r.expect("a consistent request must produce an invocation");
    assert_eq!(ix.program_id.bytes, vec![7u8; 32]);
    assert_eq!(ix.accounts.len(), 11);
    assert_eq!(ix.data, expected_data(1000, 0, 79226673515401279992447579055, true, true));
}

#[test]
fn account_list_keeps_wire_order() {
    let accounts = consistent_accounts();
    let ix = proxy_swap(&accounts, 1, 2, 3, false, false).unwrap();
    let expected: Vec<(Vec<u8>, bool, bool)> = vec![
        (vec![1u8; 32], true, false),
        (anchor_spl::token::ID.to_bytes().to_vec(), false, false),
        (vec![6u8; 32], false, true),
        (vec![8u8; 32], true, false),
        (vec![4u8; 32], true, false),
        (vec![9u8; 32], true, false),
        (vec![5u8; 32], true, false),
        (vec![10u8; 32], true, false),
        (vec![11u8; 32], true, false),
        (vec![12u8; 32], true, false),
        (derived_oracle(7, 1).bytes, true, false),
    ];
    for (i, (address, is_writable, is_signer)) in expected.into_iter().enumerate() {
        assert_eq!(ix.accounts[i].address.bytes, address, "address at position {}", i);
        assert_eq!(ix.accounts[i].is_writable, is_writable, "writability at position {}", i);
        assert_eq!(ix.accounts[i].is_signer, is_signer, "signer flag at position {}", i);
    }
}

#[test]
fn account_order_ignores_parameters() {
    let accounts = consistent_accounts();
    let first = proxy_swap(&accounts, 0, 0, 0, false, false).unwrap();
    let second = proxy_swap(&accounts, u64::MAX, u64::MAX, u128::MAX, true, true).unwrap();
    assert_eq!(first.accounts.len(), second.accounts.len());
    for i in 0..first.accounts.len() {
        assert_eq!(first.accounts[i].address.bytes, second.accounts[i].address.bytes);
        assert_eq!(first.accounts[i].is_writable, second.accounts[i].is_writable);
        assert_eq!(first.accounts[i].is_signer, second.accounts[i].is_signer);
    }
}

#[test]
fn parameters_pass_through_bit_identical() {
    let accounts = consistent_accounts();
    let amount = 0x0123_4567_89ab_cdef_u64;
    let threshold = 0xfedc_ba98_7654_3210_u64;
    let limit = 0x0011_2233_4455_6677_8899_aabb_ccdd_eeff_u128;
    let ix = proxy_swap(&accounts, amount, threshold, limit, true, false).unwrap();
    assert_eq!(ix.data, expected_data(amount, threshold, limit, true, false));
    let ix2 = proxy_swap(&accounts, amount, threshold, limit, false, true).unwrap();
    assert_eq!(ix2.data, expected_data(amount, threshold, limit, false, true));
}

#[test]
fn validation_is_idempotent() {
    let good = consistent_accounts();
    assert!(proxy_swap(&good, 5, 5, 5, true, true).is_ok());
    assert!(proxy_swap(&good, 5, 5, 5, true, true).is_ok());
    let mut bad = consistent_accounts();
    bad.token_owner_account_a.mint = addr(3);
    let e1 = proxy_swap(&bad, 5, 5, 5, true, true).unwrap_err();
    let e2 = proxy_swap(&bad, 5, 5, 5, true, true).unwrap_err();
    assert_eq!(e1, e2);
}

#[test]
fn mint_mismatch_is_rejected() {
    let mut accounts = consistent_accounts();
    accounts.token_owner_account_a.mint = addr(3);
    let r = proxy_swap(&accounts, 1000, 0, 0, true, true);
    assert_eq!(r.unwrap_err(), SwapError::ConstraintMintMismatch);
}

#[test]
fn mint_mismatch_on_b_side_is_rejected() {
    let mut accounts = consistent_accounts();
    accounts.token_owner_account_b.mint = addr(2);
    let r = proxy_swap(&accounts, 1, 1, 1, false, false);
    assert_eq!(r.unwrap_err(), SwapError::ConstraintMintMismatch);
}

#[test]
fn wrong_token_program_is_rejected() {
    let mut accounts = consistent_accounts();
    accounts.token_program = meta(42, false, false);
    let r = proxy_swap(&accounts, 1, 1, 1, true, true);
    assert_eq!(r.unwrap_err(), SwapError::InvalidProgram);
}

#[test]
fn unsigned_authority_is_rejected() {
    let mut accounts = consistent_accounts();
    accounts.token_authority.is_signer = false;
    let r = proxy_swap(&accounts, 1, 1, 1, true, true);
    assert_eq!(r.unwrap_err(), SwapError::ConstraintSigner);
}

#[test]
fn non_writable_pool_is_rejected() {
    let mut accounts = consistent_accounts();
    accounts.whirlpool.meta.is_writable = false;
    let r = proxy_swap(&accounts, 1, 1, 1, true, true);
    assert_eq!(r.unwrap_err(), SwapError::ConstraintMut);
}

#[test]
fn vault_address_mismatch_is_rejected() {
    let mut accounts = consistent_accounts();
    accounts.token_vault_a.meta.address = addr(40);
    let r = proxy_swap(&accounts, 1, 1, 1, true, true);
    assert_eq!(r.unwrap_err(), SwapError::ConstraintAddressMismatch);
}

#[test]
fn tick_range_back_reference_mismatch_is_rejected() {
    let mut accounts = consistent_accounts();
    accounts.tick_array_1.whirlpool = addr(33);
    let r = proxy_swap(&accounts, 1, 1, 1, true, true);
    assert_eq!(r.unwrap_err(), SwapError::ConstraintHasOneMismatch);
}

#[test]
fn underived_oracle_is_rejected() {
    let mut accounts = consistent_accounts();
    accounts.oracle.address = addr(44);
    let r = proxy_swap(&accounts, 1, 1, 1, true, true);
    assert_eq!(r.unwrap_err(), SwapError::ConstraintSeedsMismatch);
}

#[test]
fn oracle_derived_for_another_pool_is_rejected() {
    let mut accounts = consistent_accounts();
    accounts.oracle.address = derived_oracle(7, 2);
    let r = proxy_swap(&accounts, 1, 1, 1, true, true);
    assert_eq!(r.unwrap_err(), SwapError::ConstraintSeedsMismatch);
}

fn tick_range_buffer(start_tick_index: i32, pool_fill: u8) -> Vec<u8> {
    let mut d = vec![69u8, 97, 189, 190, 110, 7, 66, 187];
    d.extend_from_slice(&start_tick_index.to_le_bytes());
    d.extend_from_slice(&vec![0u8; 88 * 113]);
    d.extend_from_slice(&[pool_fill; 32]);
    d
}

#[test]
fn tick_range_reader_reads_header_and_back_reference() {
    let buf = tick_range_buffer(-443636, 1);
    let v = read_tick_range(&buf).expect("a well-formed tick-range buffer must parse");
    assert_eq!(v.start_tick_index, -443636);
    assert_eq!(v.whirlpool.bytes, vec![1u8; 32]);
}

#[test]
fn tick_range_reader_rejects_wrong_tag() {
    let mut buf = tick_range_buffer(0, 1);
    buf[0] = 0;
    assert_eq!(read_tick_range(&buf).unwrap_err(), SwapError::DeserializationFailure);
}

#[test]
fn tick_range_reader_rejects_wrong_length() {
    let mut buf = tick_range_buffer(0, 1);
    buf.pop();
    assert_eq!(read_tick_range(&buf).unwrap_err(), SwapError::DeserializationFailure);
}

fn pool_buffer(tick_current_index: i32) -> Vec<u8> {
    let mut d = vec![63u8, 149, 209, 12, 225, 128, 99, 9];
    d.extend_from_slice(&[0u8; 73]);
    d.extend_from_slice(&tick_current_index.to_le_bytes());
    d.extend_from_slice(&[0u8; 16]);
    d.extend_from_slice(&[2u8; 32]);
    d.extend_from_slice(&[4u8; 32]);
    d.extend_from_slice(&[0u8; 16]);
    d.extend_from_slice(&[3u8; 32]);
    d.extend_from_slice(&[5u8; 32]);
    d.resize(653, 0);
    d
}

#[test]
fn pool_reader_reads_mints_vaults_and_tick_index() {
    let buf = pool_buffer(-7);
    let v = read_pool_state(&buf).expect("a well-formed pool buffer must parse");
    assert_eq!(v.tick_current_index, -7);
    assert_eq!(v.token_mint_a.bytes, vec![2u8; 32]);
    assert_eq!(v.token_vault_a.bytes, vec![4u8; 32]);
    assert_eq!(v.token_mint_b.bytes, vec![3u8; 32]);
    assert_eq!(v.token_vault_b.bytes, vec![5u8; 32]);
}

#[test]
fn pool_reader_rejects_wrong_tag() {
    let mut buf = pool_buffer(0);
    buf[7] = 10;
    assert_eq!(read_pool_state(&buf).unwrap_err(), SwapError::DeserializationFailure);
}

#[test]
fn token_account_reader_reads_mint_owner_and_amount() {
    let mut buf = vec![2u8; 32];
    buf.extend_from_slice(&[6u8; 32]);
    buf.extend_from_slice(&123_456_789_u64.to_le_bytes());
    buf.resize(165, 0);
    let v = read_token_account(&buf).expect("a token-account buffer must parse");
    assert_eq!(v.mint.bytes, vec![2u8; 32]);
    assert_eq!(v.owner.bytes, vec![6u8; 32]);
    assert_eq!(v.amount, 123_456_789);
}

#[test]
fn token_account_reader_rejects_wrong_length() {
    let buf = vec![0u8; 164];
    assert_eq!(read_token_account(&buf).unwrap_err(), SwapError::DeserializationFailure);
}
