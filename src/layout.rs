use vstd::prelude::*;
use vstd::bytes::{spec_u64_to_le_bytes, u64_to_le_bytes};

verus! {

/// The two little-endian `u64` fields of a payload, with no padding and no
/// length prefix.
pub open spec fn layout_bytes(first: u64, second: u64) -> Seq<u8> {
    spec_u64_to_le_bytes(first) + spec_u64_to_le_bytes(second)
}

/// Writes two `u64` fields one after the other, little-endian.
fn write_two_u64(first: u64, second: u64) -> (r: Vec<u8>)
    ensures
        r@ == layout_bytes(first, second),
{
    let mut out = u64_to_le_bytes(first);
    let mut rest = u64_to_le_bytes(second);
    out.append(&mut rest);
    out
}

/// Arguments of the bonding-curve "buy" instruction.
#[derive(Clone, Copy, Debug)]
pub struct BuyLayoutpf {
    pub amount: u64,
    pub max_sol_cost: u64,
}

/// Arguments of the bonding-curve "sell" instruction.
#[derive(Clone, Copy, Debug)]
pub struct SellLayoutpf {
    pub amount: u64,
    pub min_sol_output: u64,
}

impl BuyLayoutpf {
    /// The serialized arguments: `amount`, then `max_sol_cost`.
    pub fn to_bytes(&self) -> (r: Vec<u8>)
        ensures
            r@ == layout_bytes(self.amount, self.max_sol_cost),
    {
        write_two_u64(self.amount, self.max_sol_cost)
    }
}

impl SellLayoutpf {
    /// The serialized arguments: `amount`, then `min_sol_output`.
    pub fn to_bytes(&self) -> (r: Vec<u8>)
        ensures
            r@ == layout_bytes(self.amount, self.min_sol_output),
    {
        write_two_u64(self.amount, self.min_sol_output)
    }
}

} // verus!
