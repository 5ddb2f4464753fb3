use vstd::prelude::*;
use vstd::bytes::{spec_u32_to_le_bytes, spec_u64_to_le_bytes, u32_to_le_bytes, u64_to_le_bytes};

use crate::address::{Address, Instruction};
use crate::constants::COMPUTE_BUDGET_PROGRAM_ID;

verus! {

/// Tag of the compute-budget variant that sets the compute-unit limit.
pub const SET_COMPUTE_UNIT_LIMIT_TAG: u8 = 2;

/// Tag of the compute-budget variant that sets the compute-unit price.
pub const SET_COMPUTE_UNIT_PRICE_TAG: u8 = 3;

/// `ix` asks the compute-budget program for at most `units` compute units.
pub open spec fn is_unit_limit_ix(ix: Instruction, units: u32) -> bool {
    &&& ix.program_id == (Address { bytes: COMPUTE_BUDGET_PROGRAM_ID })
    &&& ix.accounts@.len() == 0
    &&& ix.data@ == seq![SET_COMPUTE_UNIT_LIMIT_TAG] + spec_u32_to_le_bytes(units)
}

/// `ix` sets the priority fee to `micro_lamports` per compute unit.
pub open spec fn is_unit_price_ix(ix: Instruction, micro_lamports: u64) -> bool {
    &&& ix.program_id == (Address { bytes: COMPUTE_BUDGET_PROGRAM_ID })
    &&& ix.accounts@.len() == 0
    &&& ix.data@ == seq![SET_COMPUTE_UNIT_PRICE_TAG] + spec_u64_to_le_bytes(micro_lamports)
}

/// The compute-budget instruction that caps the transaction at `units`
/// compute units: the variant tag, then the limit as a little-endian `u32`.
pub fn set_compute_unit_limit(units: u32) -> (r: Instruction)
    ensures
        is_unit_limit_ix(r, units),
{
    let mut data: Vec<u8> = vec![SET_COMPUTE_UNIT_LIMIT_TAG];
    let mut rest = u32_to_le_bytes(units);
    data.append(&mut rest);
    assert(data@ =~= seq![SET_COMPUTE_UNIT_LIMIT_TAG] + spec_u32_to_le_bytes(units));
    Instruction { program_id: Address::new(COMPUTE_BUDGET_PROGRAM_ID), accounts: Vec::new(), data }
}

/// The compute-budget instruction that sets the priority fee: the variant
/// tag, then the price as a little-endian `u64`.
pub fn set_compute_unit_price(micro_lamports: u64) -> (r: Instruction)
    ensures
        is_unit_price_ix(r, micro_lamports),
{
    let mut data: Vec<u8> = vec![SET_COMPUTE_UNIT_PRICE_TAG];
    let mut rest = u64_to_le_bytes(micro_lamports);
    data.append(&mut rest);
    assert(data@ =~= seq![SET_COMPUTE_UNIT_PRICE_TAG] + spec_u64_to_le_bytes(micro_lamports));
    Instruction { program_id: Address::new(COMPUTE_BUDGET_PROGRAM_ID), accounts: Vec::new(), data }
}

} // verus!
