use solana_sdk::hash::Hash as BlockHash;
use solana_sdk::instruction::{AccountMeta as LedgerMeta, Instruction as LedgerInstruction};
use solana_sdk::message::v0::Message;
use solana_sdk::message::CompileError;
use solana_sdk::pubkey::Pubkey;
use vstd::prelude::*;

use crate::address::{Address, Instruction};
use crate::buy::{build_buy_instructions, buyer_token_account_of, curve_token_account_of, BuyParams};

verus! {

#[verifier::external_type_specification]
#[verifier::external_body]
pub struct ExMessage(solana_sdk::message::v0::Message);

#[verifier::external_type_specification]
#[verifier::external_body]
pub struct ExCompileError(solana_sdk::message::CompileError);

/// Why a buy transaction could not be put together.
#[derive(Clone, Copy, Debug, PartialEq, Eq)]
pub enum BuyError {
    /// A token account of the buy could not be derived.
    DerivationExhausted,
    /// The instructions do not fit the limits of a message.
    MessageTooLarge,
}

/// A compiled version-0 message, with the fee payer (its first account key)
/// and the recent blockhash that it carries.
pub struct CompiledMessage {
    pub message: Message,
    pub fee_payer: Address,
    pub recent_blockhash: [u8; 32],
}

/// Relies on `solana_sdk::message::v0::Message::try_compile`, with no address
/// lookup tables. It puts the payer first among the account keys and stores
/// the given blockhash. It fails only where an account index overflows a
/// byte; eight instructions of at most sixteen accounts each use at most
/// 137 keys, which never overflows.
#[verifier::external_body]
fn try_compile(payer: &Address, ixs: &Vec<Instruction>, recent_blockhash: &[u8; 32]) -> (r: Result<
    CompiledMessage,
    CompileError,
>)
    ensures
        ixs@.len() <= 8 && (forall|i: int|
            0 <= i < ixs@.len() ==> #[trigger] ixs@[i].accounts@.len() <= 16) ==> r is Ok,
        r matches Ok(c) ==> c.fee_payer == *payer && c.recent_blockhash == *recent_blockhash,
{
    let key = |a: &Address| Pubkey::new_from_array(a.bytes);
    let ledger: Vec<LedgerInstruction> = ixs.iter().map(|ix| LedgerInstruction {
        program_id: key(&ix.program_id),
        accounts: ix.accounts.iter().map(|m| LedgerMeta {
            pubkey: key(&m.pubkey), is_signer: m.is_signer, is_writable: m.is_writable,
        }).collect(),
        data: ix.data.clone(),
    }).collect();
    Message::try_compile(&key(payer), &ledger, &[], BlockHash::new_from_array(*recent_blockhash))
        .map(|m| CompiledMessage {
            fee_payer: Address::new(m.account_keys[0].to_bytes()),
            recent_blockhash: m.recent_blockhash.to_bytes(),
            message: m,
        })
}

/// The message of a buy transaction, paid by `p.payer`, with the
/// instructions of `build_buy_instructions` and `recent_blockhash`, ready to
/// be signed. It fails, with `DerivationExhausted`, exactly where a token
/// account cannot be derived.
pub fn compile_buy_message(p: &BuyParams, recent_blockhash: [u8; 32]) -> (r: Result<
    CompiledMessage,
    BuyError,
>)
    ensures
        r is Ok <==> curve_token_account_of(p.bonding_curve) is Some && buyer_token_account_of(
            p.payer,
            p.mint,
        ) is Some,
        r matches Err(e) ==> e == BuyError::DerivationExhausted,
        r matches Ok(c) ==> c.fee_payer == p.payer && c.recent_blockhash == recent_blockhash,
{
    let ixs = match build_buy_instructions(p) {
        Ok(ixs) => ixs,
        Err(_) => {
            return Err(BuyError::DerivationExhausted);
        },
    };
    assert(forall|i: int| 0 <= i < ixs@.len() ==> #[trigger] ixs@[i].accounts@.len() <= 16);
    match try_compile(&p.payer, &ixs, &recent_blockhash) {
        Ok(c) => Ok(c),
        Err(_) => Err(BuyError::MessageTooLarge),
    }
}

} // verus!
