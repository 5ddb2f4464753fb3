use vstd::prelude::*;

verus! {

/// A 32-byte account address, as the ledger writes it.
#[derive(Clone, Copy, Debug)]
pub struct Address {
    pub bytes: [u8; 32],
}

impl View for Address {
    type V = Seq<u8>;

    open spec fn view(&self) -> Seq<u8> {
        self.bytes@
    }
}

impl Address {
    pub fn new(bytes: [u8; 32]) -> (r: Address)
        ensures
            r.bytes == bytes,
    {
        Address { bytes }
    }
}

/// One account that an instruction reads or writes, with its flags.
#[derive(Clone, Copy, Debug)]
pub struct AccountMeta {
    pub pubkey: Address,
    pub is_signer: bool,
    pub is_writable: bool,
}

/// The account `a`, writable, signing as `is_signer` says.
pub open spec fn writable_meta(a: Address, is_signer: bool) -> AccountMeta {
    AccountMeta { pubkey: a, is_signer, is_writable: true }
}

/// The account `a`, read-only, signing as `is_signer` says.
pub open spec fn readonly_meta(a: Address, is_signer: bool) -> AccountMeta {
    AccountMeta { pubkey: a, is_signer, is_writable: false }
}

impl AccountMeta {
    /// A writable account.
    pub fn new(pubkey: Address, is_signer: bool) -> (r: AccountMeta)
        ensures
            r == writable_meta(pubkey, is_signer),
    {
        AccountMeta { pubkey, is_signer, is_writable: true }
    }

    /// A read-only account.
    pub fn new_readonly(pubkey: Address, is_signer: bool) -> (r: AccountMeta)
        ensures
            r == readonly_meta(pubkey, is_signer),
    {
        AccountMeta { pubkey, is_signer, is_writable: false }
    }
}

/// A call of an on-chain program: the program, the accounts in the order the
/// program expects them, and the raw payload.
#[derive(Clone, Debug)]
pub struct Instruction {
    pub program_id: Address,
    pub accounts: Vec<AccountMeta>,
    pub data: Vec<u8>,
}

} // verus!
