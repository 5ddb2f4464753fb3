use std::str::FromStr;

use anchor_lang::prelude::borsh::BorshSerialize;
use crusty_fun_crab::address::{AccountMeta, Address};
use crusty_fun_crab::budget::{set_compute_unit_limit, set_compute_unit_price};
use crusty_fun_crab::constants::{
    ASSOCIATED_TOKEN_PROGRAM_ID, COMPUTE_BUDGET_PROGRAM_ID, DEFAULT_BUY, DEFAULT_SELL,
    PUMPFUN_EVENT_AUTHORITY, PUMPFUN_FEE_RECIPENT, PUMPFUN_GLOBAL, PUMPFUN_PROGRAM,
    RENT_SYSVAR_ID, SYSTEM_PROGRAM_ID, TOKEN_PROGRAM_ID,
};
use crusty_fun_crab::instructions::{create_sell_ix, get_buy_ix};
use crusty_fun_crab::layout::{BuyLayoutpf, SellLayoutpf};
use solana_sdk::compute_budget::ComputeBudgetInstruction;
use solana_sdk::pubkey::Pubkey;

fn addr(b: u8) -> Address {
    Address::new([b; 32])
}

fn key(s: &str) -> [u8; 32] {
    Pubkey::from_str(s).unwrap().to_bytes()
}

fn meta(a: [u8; 32], is_signer: bool, is_writable: bool) -> (Vec<u8>, bool, bool) {
    (a.to_vec(), is_signer, is_writable)
}

fn metas(accounts: &[AccountMeta]) -> Vec<(Vec<u8>, bool, bool)> {
    accounts
        .iter()
        .map(|m| (m.pubkey.bytes.to_vec(), m.is_signer, m.is_writable))
        .collect()
}

#[test]
fn constants_match_their_base58_names() {
    assert_eq!(TOKEN_PROGRAM_ID, key("TokenkegQfeZyiNwAJbNbGKPFXCWuBvf9Ss623VQ5DA"));
    assert_eq!(ASSOCIATED_TOKEN_PROGRAM_ID, key("ATokenGPvbdGVxr1b2hvZbsiqW5xWH25efTNsLJA8knL"));
    assert_eq!(PUMPFUN_PROGRAM, key("6EF8rrecthR5Dkzon8Nwu78hRvfCKubJ14M5uBEwF6P"));
    assert_eq!(PUMPFUN_GLOBAL, key("4wTV1YmiEkRvAtNtsSGPtUrqRYQMe5SKy2uB4Jjaxnjf"));
    assert_eq!(PUMPFUN_FEE_RECIPENT, key("CebN5WGQ4jvEPvsVU4EoHEpgzq1VV7AbicfhtW4xC9iM"));
    assert_eq!(PUMPFUN_EVENT_AUTHORITY, key("Ce6TQqeHC9p8KetsN6JsjHK7UTZk7nasjjnr7XxXp9F1"));
    assert_eq!(SYSTEM_PROGRAM_ID, solana_sdk::system_program::id().to_bytes());
    assert_eq!(RENT_SYSVAR_ID, solana_sdk::sysvar::rent::id().to_bytes());
    assert_eq!(COMPUTE_BUDGET_PROGRAM_ID, solana_sdk::compute_budget::id().to_bytes());
    assert_eq!(ASSOCIATED_TOKEN_PROGRAM_ID, spl_associated_token_account::id().to_bytes());
}

#[test]
fn layouts_serialize_like_borsh() {
    for (a, b) in [(0u64, 0u64), (1, 2), (u64::MAX, 0), (0x0102030405060708, u64::MAX)] {
        let expected = (a, b).try_to_vec().unwrap();
        assert_eq!(BuyLayoutpf { amount: a, max_sol_cost: b }.to_bytes(), expected);
        assert_eq!(SellLayoutpf { amount: a, min_sol_output: b }.to_bytes(), expected);
    }
}

#[test]
fn buy_payload_is_24_bytes_with_buy_discriminator() {
    for (a, b) in [(0u64, 0u64), (5, 7), (u64::MAX, u64::MAX), (u64::MAX, 0)] {
        let ix = get_buy_ix(a, b, addr(1), addr(2), addr(3), addr(4), addr(5));
        assert_eq!(ix.data.len(), 24);
        assert_eq!(&ix.data[..8], &DEFAULT_BUY);
        let ix = create_sell_ix(a, b, addr(1), addr(2), addr(3), addr(4), addr(5));
        assert_eq!(ix.data.len(), 24);
        assert_eq!(&ix.data[..8], &DEFAULT_SELL);
    }
}

#[test]
fn payload_fields_decode_back() {
    for (a, b) in [(0u64, u64::MAX), (u64::MAX, 0), (0, 0), (u64::MAX, u64::MAX)] {
        let ix = get_buy_ix(a, b, addr(1), addr(2), addr(3), addr(4), addr(5));
        assert_eq!(u64::from_le_bytes(ix.data[8..16].try_into().unwrap()), a);
        assert_eq!(u64::from_le_bytes(ix.data[16..24].try_into().unwrap()), b);
        let ix = create_sell_ix(a, b, addr(1), addr(2), addr(3), addr(4), addr(5));
        assert_eq!(u64::from_le_bytes(ix.data[8..16].try_into().unwrap()), a);
        assert_eq!(u64::from_le_bytes(ix.data[16..24].try_into().unwrap()), b);
    }
}

#[test]
fn buy_payload_exact_bytes() {
    let ix = get_buy_ix(0, 1_030_000, addr(1), addr(2), addr(3), addr(4), addr(5));
    assert_eq!(
        ix.data,
        vec![
            0x66, 0x06, 0x3d, 0x12, 0x01, 0xda, 0xeb, 0xea, 0, 0, 0, 0, 0, 0, 0, 0, 0x70, 0xb7,
            0x0f, 0, 0, 0, 0, 0
        ]
    );
    assert_eq!(ix.program_id.bytes, PUMPFUN_PROGRAM);
}

#[test]
fn buy_accounts_in_fixed_order() {
    let ix = get_buy_ix(1, 2, addr(1), addr(2), addr(3), addr(4), addr(5));
    assert_eq!(
        metas(&ix.accounts),
        vec![
            meta(PUMPFUN_GLOBAL, false, false),
            meta(PUMPFUN_FEE_RECIPENT, false, true),
            meta([1; 32], false, false),
            meta([2; 32], false, true),
            meta([3; 32], false, true),
            meta([4; 32], false, true),
            meta([5; 32], true, true),
            meta(SYSTEM_PROGRAM_ID, false, false),
            meta(TOKEN_PROGRAM_ID, false, false),
            meta(RENT_SYSVAR_ID, false, false),
            meta(PUMPFUN_EVENT_AUTHORITY, false, false),
            meta(PUMPFUN_PROGRAM, false, false),
        ]
    );
}

#[test]
fn sell_accounts_differ_from_buy_in_one_slot() {
    let ix = create_sell_ix(1, 2, addr(1), addr(2), addr(3), addr(4), addr(5));
    assert_eq!(ix.accounts.len(), 12);
    assert_eq!(ix.program_id.bytes, PUMPFUN_PROGRAM);
    assert_eq!(metas(&ix.accounts[8..10]), vec![
        meta(TOKEN_PROGRAM_ID, false, false),
        meta(ASSOCIATED_TOKEN_PROGRAM_ID, false, false),
    ]);
    let buy = get_buy_ix(1, 2, addr(1), addr(2), addr(3), addr(4), addr(5));
    for i in 0..12 {
        if i != 9 {
            assert_eq!(metas(&ix.accounts[i..i + 1]), metas(&buy.accounts[i..i + 1]));
        }
    }
    assert_eq!(metas(&buy.accounts[9..10]), vec![meta(RENT_SYSVAR_ID, false, false)]);
    assert_eq!(ix.data[8..24], buy.data[8..24]);
    assert_eq!(metas(&ix.accounts[6..7]), vec![meta([5; 32], true, true)]);
    assert_eq!(ix.data[8..16], 1u64.to_le_bytes());
    assert_eq!(ix.data[16..24], 2u64.to_le_bytes());
}

#[test]
fn compute_budget_matches_sdk() {
    for units in [0u32, 80_000, u32::MAX] {
        let ours = set_compute_unit_limit(units);
        let theirs = ComputeBudgetInstruction::set_compute_unit_limit(units);
        assert_eq!(ours.data, theirs.data);
        assert_eq!(ours.program_id.bytes, theirs.program_id.to_bytes());
        assert!(ours.accounts.is_empty() && theirs.accounts.is_empty());
    }
    for price in [0u64, 100_000, u64::MAX] {
        let ours = set_compute_unit_price(price);
        let theirs = ComputeBudgetInstruction::set_compute_unit_price(price);
        assert_eq!(ours.data, theirs.data);
        assert_eq!(ours.program_id.bytes, theirs.program_id.to_bytes());
    }
    assert_eq!(set_compute_unit_limit(80_000).data, vec![2, 0x80, 0x38, 0x01, 0x00]);
}
