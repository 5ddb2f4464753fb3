//! Building and assembling buy and sell instructions for the pump.fun
//! bonding-curve program, with proofs of their byte layout and account order.

pub mod address;
pub mod associated;
pub mod budget;
pub mod buy;
pub mod constants;
pub mod derivation;
pub mod instructions;
pub mod layout;
pub mod retry;
pub mod transaction;
