use vstd::prelude::*;
use vstd::array::array_as_slice;
use vstd::slice::slice_to_vec;

use crate::address::{Address, Instruction};
use crate::associated::{create_associated_token_account_idempotent, is_create_account_ix};
use crate::budget::{is_unit_limit_ix, is_unit_price_ix, set_compute_unit_limit, set_compute_unit_price};
use crate::constants::{
    ASSOCIATED_TOKEN_PROGRAM_ID, COMPUTE_BUDGET_PROGRAM_ID, PUMPFUN_PROGRAM, TOKEN_PROGRAM_ID,
};
use crate::derivation::{
    associated_account_of, derive_associated_account, derive_program_address, program_address_of,
    seeds_view, DerivationExhausted,
};
use crate::instructions::{buy_accounts, buy_data, get_buy_ix};

verus! {

/// Share of the investment, in percent, added on top of it as the most the
/// buy may cost, to leave room for fees.
pub const FEE_PERCENT: u64 = 3;

/// Compute-unit limit used when none is configured.
pub const DEFAULT_UNIT_LIMIT: u32 = 80_000;

/// Priority fee, in micro-lamports per compute unit, used when none is
/// configured.
pub const DEFAULT_UNIT_PRICE: u64 = 100_000;

/// The investment with the fee share added, rounded down.
pub open spec fn fee_adjusted(lamports: nat) -> nat {
    (lamports + lamports * FEE_PERCENT / 100) as nat
}

/// The most a buy of `lamports` may cost: the investment plus three percent,
/// rounded down; `None` where that does not fit in a `u64`.
pub fn fee_adjusted_ceiling(lamports: u64) -> (r: Option<u64>)
    ensures
        r == (if fee_adjusted(lamports as nat) <= u64::MAX {
            Some(fee_adjusted(lamports as nat) as u64)
        } else {
            None::<u64>
        }),
{
    let whole = lamports / 100;
    let rest = lamports % 100;
    let extra = whole * FEE_PERCENT + rest * FEE_PERCENT / 100;
    assert(extra == lamports * FEE_PERCENT / 100) by (nonlinear_arith)
        requires
            whole == lamports / 100,
            rest == lamports % 100,
            extra == whole * 3 + rest * 3 / 100,
            FEE_PERCENT == 3,
    ;
    lamports.checked_add(extra)
}

/// Everything a buy needs besides the network: who pays, what is bought and
/// from which curve, how much, and the compute budget.
#[derive(Clone, Copy, Debug)]
pub struct BuyParams {
    pub payer: Address,
    pub mint: Address,
    pub bonding_curve: Address,
    pub token_amount: u64,
    pub max_sol_cost: u64,
    pub unit_limit: u32,
    pub unit_price: u64,
}

/// The token account of the bonding curve: derived under the
/// associated-token program from the curve's address alone.
pub open spec fn curve_token_account_of(bonding_curve: Address) -> Option<Seq<u8>> {
    program_address_of(seq![bonding_curve@], ASSOCIATED_TOKEN_PROGRAM_ID@)
}

/// The buyer's token account for `mint`.
pub open spec fn buyer_token_account_of(payer: Address, mint: Address) -> Option<Seq<u8>> {
    associated_account_of(
        payer,
        mint,
        Address { bytes: TOKEN_PROGRAM_ID },
        Address { bytes: ASSOCIATED_TOKEN_PROGRAM_ID },
    )
}

/// `ix` is the buy of `p` against these two token accounts.
pub open spec fn is_buy_ix(
    ix: Instruction,
    p: BuyParams,
    curve_token_account: Address,
    buyer_token_account: Address,
) -> bool {
    &&& ix.program_id == (Address { bytes: PUMPFUN_PROGRAM })
    &&& ix.data@ == buy_data(p.token_amount, p.max_sol_cost)
    &&& ix.accounts@ == buy_accounts(
        p.mint,
        p.bonding_curve,
        curve_token_account,
        buyer_token_account,
        p.payer,
    )
}

/// Every compute-budget and account-creation instruction of `ixs` stands
/// before every trade instruction.
pub open spec fn setup_before_trade(ixs: Seq<Instruction>) -> bool {
    forall|i: int, j: int|
        0 <= i < ixs.len() && 0 <= j < ixs.len() && ixs[j].program_id == (Address {
            bytes: PUMPFUN_PROGRAM,
        }) && (ixs[i].program_id == (Address { bytes: COMPUTE_BUDGET_PROGRAM_ID })
            || ixs[i].program_id == (Address { bytes: ASSOCIATED_TOKEN_PROGRAM_ID })) ==> i < j
}

/// The instructions of a buy transaction, in order: the compute-unit limit,
/// the compute-unit price, the creation of the buyer's token account where it
/// is missing, and the trade. It fails only where a token account cannot be
/// derived.
pub fn build_buy_instructions(p: &BuyParams) -> (r: Result<Vec<Instruction>, DerivationExhausted>)
    ensures
        r is Ok <==> curve_token_account_of(p.bonding_curve) is Some && buyer_token_account_of(
            p.payer,
            p.mint,
        ) is Some,
        r matches Ok(ixs) ==> {
            &&& ixs@.len() == 4
            &&& is_unit_limit_ix(ixs@[0], p.unit_limit)
            &&& is_unit_price_ix(ixs@[1], p.unit_price)
            &&& is_create_account_ix(
                ixs@[2],
                p.payer,
                p.payer,
                p.mint,
                Address { bytes: TOKEN_PROGRAM_ID },
            )
            &&& curve_token_account_of(p.bonding_curve) == Some(ixs@[3].accounts@[4].pubkey@)
            &&& buyer_token_account_of(p.payer, p.mint) == Some(ixs@[3].accounts@[5].pubkey@)
            &&& is_buy_ix(ixs@[3], *p, ixs@[3].accounts@[4].pubkey, ixs@[3].accounts@[5].pubkey)
            &&& ixs@[2].accounts@[1].pubkey == ixs@[3].accounts@[5].pubkey
            &&& setup_before_trade(ixs@)
        },
{
    let curve_seeds = vec![slice_to_vec(array_as_slice(&p.bonding_curve.bytes))];
    assert(seeds_view(curve_seeds@) =~= seq![p.bonding_curve@]);
    let curve_token_account = match derive_program_address(
        &curve_seeds,
        Address::new(ASSOCIATED_TOKEN_PROGRAM_ID),
    ) {
        Ok(a) => a,
        Err(e) => {
            return Err(e);
        },
    };
    let buyer_token_account = match derive_associated_account(
        p.payer,
        p.mint,
        Address::new(TOKEN_PROGRAM_ID),
        Address::new(ASSOCIATED_TOKEN_PROGRAM_ID),
    ) {
        Ok(a) => a,
        Err(e) => {
            return Err(e);
        },
    };
    let create = match create_associated_token_account_idempotent(
        p.payer,
        p.payer,
        p.mint,
        Address::new(TOKEN_PROGRAM_ID),
    ) {
        Ok(ix) => ix,
        Err(e) => {
            return Err(e);
        },
    };
    assert(create.accounts@[1].pubkey.bytes =~= buyer_token_account.bytes);
    let trade = get_buy_ix(
        p.token_amount,
        p.max_sol_cost,
        p.mint,
        p.bonding_curve,
        curve_token_account,
        buyer_token_account,
        p.payer,
    );
    let ixs = vec![
        set_compute_unit_limit(p.unit_limit),
        set_compute_unit_price(p.unit_price),
        create,
        trade,
    ];
    assert(PUMPFUN_PROGRAM@[0] != COMPUTE_BUDGET_PROGRAM_ID@[0]);
    assert(PUMPFUN_PROGRAM@[0] != ASSOCIATED_TOKEN_PROGRAM_ID@[0]);
    Ok(ixs)
}

} // verus!
