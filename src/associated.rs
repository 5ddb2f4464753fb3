use spl_associated_token_account::solana_program::pubkey::Pubkey;
use vstd::prelude::*;

use crate::address::{readonly_meta, writable_meta, AccountMeta, Address, Instruction};
use crate::constants::{ASSOCIATED_TOKEN_PROGRAM_ID, SYSTEM_PROGRAM_ID};
use crate::derivation::{associated_account_of, derive_associated_account, DerivationExhausted};

verus! {

/// Payload of the associated-token program's idempotent "create": an account
/// that already exists is left as it is, and the instruction succeeds.
pub const CREATE_IDEMPOTENT_TAG: u8 = 1;

/// The six accounts of an account creation.
pub open spec fn create_account_metas(
    payer: Address,
    account: Address,
    owner: Address,
    mint: Address,
    token_program: Address,
) -> Seq<AccountMeta> {
    seq![
        writable_meta(payer, true),
        writable_meta(account, false),
        readonly_meta(owner, false),
        readonly_meta(mint, false),
        readonly_meta(Address { bytes: SYSTEM_PROGRAM_ID }, false),
        readonly_meta(token_program, false),
    ]
}

/// `ix` creates, if it does not exist yet, the associated token account of
/// `owner` for `mint`, paid by `payer`.
pub open spec fn is_create_account_ix(
    ix: Instruction,
    payer: Address,
    owner: Address,
    mint: Address,
    token_program: Address,
) -> bool {
    let assoc = Address { bytes: ASSOCIATED_TOKEN_PROGRAM_ID };
    &&& ix.program_id == assoc
    &&& ix.data@ == seq![CREATE_IDEMPOTENT_TAG]
    &&& ix.accounts@.len() == 6
    &&& associated_account_of(owner, mint, token_program, assoc) == Some(ix.accounts@[1].pubkey@)
    &&& ix.accounts@ == create_account_metas(payer, ix.accounts@[1].pubkey, owner, mint, token_program)
}

/// Relies on `spl_associated_token_account::instruction::
/// create_associated_token_account_idempotent`: the associated-token program,
/// the borsh tag of `CreateIdempotent`, and six accounts, the second of which
/// it derives with `Pubkey::find_program_address` over the seeds owner, token
/// program, mint; that call panics where no address is found.
#[verifier::external_body]
fn create_idempotent(payer: &Address, owner: &Address, mint: &Address, token_program: &Address) -> (r:
    Instruction)
    requires
        associated_account_of(
            *owner,
            *mint,
            *token_program,
            Address { bytes: ASSOCIATED_TOKEN_PROGRAM_ID },
        ) is Some,
    ensures
        is_create_account_ix(r, *payer, *owner, *mint, *token_program),
{
    let ix = spl_associated_token_account::instruction::create_associated_token_account_idempotent(
        &Pubkey::new_from_array(payer.bytes),
        &Pubkey::new_from_array(owner.bytes),
        &Pubkey::new_from_array(mint.bytes),
        &Pubkey::new_from_array(token_program.bytes),
    );
    let accounts = ix.accounts.iter().map(|m| AccountMeta {
        pubkey: Address::new(m.pubkey.to_bytes()),
        is_signer: m.is_signer,
        is_writable: m.is_writable,
    }).collect();
    Instruction { program_id: Address::new(ix.program_id.to_bytes()), accounts, data: ix.data }
}

/// The instruction that creates the associated token account of `owner` for
/// `mint` where it is missing, paid by `payer`; it fails only where that
/// account cannot be derived.
pub fn create_associated_token_account_idempotent(
    payer: Address,
    owner: Address,
    mint: Address,
    token_program: Address,
) -> (r: Result<Instruction, DerivationExhausted>)
    ensures
        r is Ok <==> associated_account_of(
            owner,
            mint,
            token_program,
            Address { bytes: ASSOCIATED_TOKEN_PROGRAM_ID },
        ) is Some,
        r matches Ok(ix) ==> is_create_account_ix(ix, payer, owner, mint, token_program),
{
    match derive_associated_account(
        owner,
        mint,
        token_program,
        Address::new(ASSOCIATED_TOKEN_PROGRAM_ID),
    ) {
        Ok(_) => Ok(create_idempotent(&payer, &owner, &mint, &token_program)),
        Err(e) => Err(e),
    }
}

} // verus!
