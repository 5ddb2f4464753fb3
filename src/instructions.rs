use vstd::prelude::*;
use vstd::array::array_as_slice;
use vstd::bytes::{lemma_auto_spec_u64_to_from_le_bytes, spec_u64_from_le_bytes, spec_u64_to_le_bytes};
use vstd::slice::slice_to_vec;

use crate::address::{readonly_meta, writable_meta, AccountMeta, Address, Instruction};
use crate::constants::{
    ASSOCIATED_TOKEN_PROGRAM_ID, DEFAULT_BUY, DEFAULT_SELL, PUMPFUN_EVENT_AUTHORITY,
    PUMPFUN_FEE_RECIPENT, PUMPFUN_GLOBAL, PUMPFUN_PROGRAM, RENT_SYSVAR_ID, SYSTEM_PROGRAM_ID,
    TOKEN_PROGRAM_ID,
};
use crate::layout::{layout_bytes, BuyLayoutpf, SellLayoutpf};

verus! {

/// Payload of a buy: the buy discriminator, `amount`, `max_sol_cost`.
pub open spec fn buy_data(amount: u64, max_sol_cost: u64) -> Seq<u8> {
    DEFAULT_BUY@ + layout_bytes(amount, max_sol_cost)
}

/// Payload of a sell: the sell discriminator, `amount`, `min_sol_output`.
pub open spec fn sell_data(amount: u64, min_sol_output: u64) -> Seq<u8> {
    DEFAULT_SELL@ + layout_bytes(amount, min_sol_output)
}

/// The twelve accounts of a buy, in the order the program reads them.
pub open spec fn buy_accounts(
    mint: Address,
    bonding_curve: Address,
    curve_token_account: Address,
    buyer_token_account: Address,
    payer: Address,
) -> Seq<AccountMeta> {
    seq![
        readonly_meta(Address { bytes: PUMPFUN_GLOBAL }, false),
        writable_meta(Address { bytes: PUMPFUN_FEE_RECIPENT }, false),
        readonly_meta(mint, false),
        writable_meta(bonding_curve, false),
        writable_meta(curve_token_account, false),
        writable_meta(buyer_token_account, false),
        writable_meta(payer, true),
        readonly_meta(Address { bytes: SYSTEM_PROGRAM_ID }, false),
        readonly_meta(Address { bytes: TOKEN_PROGRAM_ID }, false),
        readonly_meta(Address { bytes: RENT_SYSVAR_ID }, false),
        readonly_meta(Address { bytes: PUMPFUN_EVENT_AUTHORITY }, false),
        readonly_meta(Address { bytes: PUMPFUN_PROGRAM }, false),
    ]
}

/// The twelve accounts of a sell. They differ from those of a buy in the
/// tenth place only, which holds the associated-token program where a buy has
/// the rent sysvar.
pub open spec fn sell_accounts(
    mint: Address,
    bonding_curve: Address,
    curve_token_account: Address,
    seller_token_account: Address,
    payer: Address,
) -> Seq<AccountMeta> {
    seq![
        readonly_meta(Address { bytes: PUMPFUN_GLOBAL }, false),
        writable_meta(Address { bytes: PUMPFUN_FEE_RECIPENT }, false),
        readonly_meta(mint, false),
        writable_meta(bonding_curve, false),
        writable_meta(curve_token_account, false),
        writable_meta(seller_token_account, false),
        writable_meta(payer, true),
        readonly_meta(Address { bytes: SYSTEM_PROGRAM_ID }, false),
        readonly_meta(Address { bytes: TOKEN_PROGRAM_ID }, false),
        readonly_meta(Address { bytes: ASSOCIATED_TOKEN_PROGRAM_ID }, false),
        readonly_meta(Address { bytes: PUMPFUN_EVENT_AUTHORITY }, false),
        readonly_meta(Address { bytes: PUMPFUN_PROGRAM }, false),
    ]
}

/// The buy instruction of the bonding-curve program: buy `amount` tokens of
/// `mint` from `bonding_curve`, paying at most `max_sol_cost` lamports.
pub fn get_buy_ix(
    amount: u64,
    max_sol_cost: u64,
    mint: Address,
    bonding_curve: Address,
    curve_token_account: Address,
    buyer_token_account: Address,
    payer: Address,
) -> (r: Instruction)
    ensures
        r.program_id == (Address { bytes: PUMPFUN_PROGRAM }),
        r.data@ == buy_data(amount, max_sol_cost),
        r.accounts@ == buy_accounts(
            mint,
            bonding_curve,
            curve_token_account,
            buyer_token_account,
            payer,
        ),
{
    let layout = BuyLayoutpf { amount, max_sol_cost };
    let mut data = slice_to_vec(array_as_slice(&DEFAULT_BUY));
    let mut args = layout.to_bytes();
    data.append(&mut args);
    let accounts = vec![
        AccountMeta::new_readonly(Address::new(PUMPFUN_GLOBAL), false),
        AccountMeta::new(Address::new(PUMPFUN_FEE_RECIPENT), false),
        AccountMeta::new_readonly(mint, false),
        AccountMeta::new(bonding_curve, false),
        AccountMeta::new(curve_token_account, false),
        AccountMeta::new(buyer_token_account, false),
        AccountMeta::new(payer, true),
        AccountMeta::new_readonly(Address::new(SYSTEM_PROGRAM_ID), false),
        AccountMeta::new_readonly(Address::new(TOKEN_PROGRAM_ID), false),
        AccountMeta::new_readonly(Address::new(RENT_SYSVAR_ID), false),
        AccountMeta::new_readonly(Address::new(PUMPFUN_EVENT_AUTHORITY), false),
        AccountMeta::new_readonly(Address::new(PUMPFUN_PROGRAM), false),
    ];
    Instruction { program_id: Address::new(PUMPFUN_PROGRAM), accounts, data }
}

/// The sell instruction of the bonding-curve program: sell `amount` tokens
/// of `mint` to `bonding_curve`, receiving at least `min_sol_output`
/// lamports.
pub fn create_sell_ix(
    amount: u64,
    min_sol_output: u64,
    mint: Address,
    bonding_curve: Address,
    curve_token_account: Address,
    seller_token_account: Address,
    payer: Address,
) -> (r: Instruction)
    ensures
        r.program_id == (Address { bytes: PUMPFUN_PROGRAM }),
        r.data@ == sell_data(amount, min_sol_output),
        r.accounts@ == sell_accounts(
            mint,
            bonding_curve,
            curve_token_account,
            seller_token_account,
            payer,
        ),
{
    let layout = SellLayoutpf { amount, min_sol_output };
    let mut data = slice_to_vec(array_as_slice(&DEFAULT_SELL));
    let mut args = layout.to_bytes();
    data.append(&mut args);
    let accounts = vec![
        AccountMeta::new_readonly(Address::new(PUMPFUN_GLOBAL), false),
        AccountMeta::new(Address::new(PUMPFUN_FEE_RECIPENT), false),
        AccountMeta::new_readonly(mint, false),
        AccountMeta::new(bonding_curve, false),
        AccountMeta::new(curve_token_account, false),
        AccountMeta::new(seller_token_account, false),
        AccountMeta::new(payer, true),
        AccountMeta::new_readonly(Address::new(SYSTEM_PROGRAM_ID), false),
        AccountMeta::new_readonly(Address::new(TOKEN_PROGRAM_ID), false),
        AccountMeta::new_readonly(Address::new(ASSOCIATED_TOKEN_PROGRAM_ID), false),
        AccountMeta::new_readonly(Address::new(PUMPFUN_EVENT_AUTHORITY), false),
        AccountMeta::new_readonly(Address::new(PUMPFUN_PROGRAM), false),
    ];
    Instruction { program_id: Address::new(PUMPFUN_PROGRAM), accounts, data }
}

/// A buy and a sell with the same arguments go to the same program with the
/// same accounts but for the tenth, and carry the same two fields.
pub proof fn lemma_sell_mirrors_buy(
    amount: u64,
    second: u64,
    mint: Address,
    bonding_curve: Address,
    curve_token_account: Address,
    trader_token_account: Address,
    payer: Address,
)
    ensures
        sell_accounts(mint, bonding_curve, curve_token_account, trader_token_account, payer)
            == buy_accounts(
            mint,
            bonding_curve,
            curve_token_account,
            trader_token_account,
            payer,
        ).update(9, readonly_meta(Address { bytes: ASSOCIATED_TOKEN_PROGRAM_ID }, false)),
        sell_data(amount, second).subrange(8, 24) == buy_data(amount, second).subrange(8, 24),
{
    lemma_auto_spec_u64_to_from_le_bytes();
    assert(sell_accounts(mint, bonding_curve, curve_token_account, trader_token_account, payer)
        =~= buy_accounts(
        mint,
        bonding_curve,
        curve_token_account,
        trader_token_account,
        payer,
    ).update(9, readonly_meta(Address { bytes: ASSOCIATED_TOKEN_PROGRAM_ID }, false)));
    assert(sell_data(amount, second).subrange(8, 24) =~= layout_bytes(amount, second));
    assert(buy_data(amount, second).subrange(8, 24) =~= layout_bytes(amount, second));
}

/// Every buy payload is 24 bytes long and opens with the buy discriminator;
/// every sell payload likewise, with the sell discriminator.
pub proof fn lemma_payload_shape(amount: u64, second: u64)
    ensures
        buy_data(amount, second).len() == 24,
        buy_data(amount, second).subrange(0, 8) == DEFAULT_BUY@,
        sell_data(amount, second).len() == 24,
        sell_data(amount, second).subrange(0, 8) == DEFAULT_SELL@,
{
    lemma_auto_spec_u64_to_from_le_bytes();
    assert(buy_data(amount, second).subrange(0, 8) =~= DEFAULT_BUY@);
    assert(sell_data(amount, second).subrange(0, 8) =~= DEFAULT_SELL@);
}

/// Reading back the sixteen bytes after the discriminator, as two
/// little-endian `u64`, gives the two fields that were written.
pub proof fn lemma_payload_round_trip(amount: u64, second: u64)
    ensures
        spec_u64_from_le_bytes(buy_data(amount, second).subrange(8, 16)) == amount,
        spec_u64_from_le_bytes(buy_data(amount, second).subrange(16, 24)) == second,
        spec_u64_from_le_bytes(sell_data(amount, second).subrange(8, 16)) == amount,
        spec_u64_from_le_bytes(sell_data(amount, second).subrange(16, 24)) == second,
{
    lemma_auto_spec_u64_to_from_le_bytes();
    let a = spec_u64_to_le_bytes(amount);
    let b = spec_u64_to_le_bytes(second);
    assert(buy_data(amount, second).subrange(8, 16) =~= a);
    assert(buy_data(amount, second).subrange(16, 24) =~= b);
    assert(sell_data(amount, second).subrange(8, 16) =~= a);
    assert(sell_data(amount, second).subrange(16, 24) =~= b);
}

} // verus!
