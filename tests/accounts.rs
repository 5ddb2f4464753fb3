use crusty_fun_crab::address::Address;
use crusty_fun_crab::associated::create_associated_token_account_idempotent;
use crusty_fun_crab::constants::{
    ASSOCIATED_TOKEN_PROGRAM_ID, SYSTEM_PROGRAM_ID, TOKEN_PROGRAM_ID,
};
use crusty_fun_crab::derivation::{
    derive_associated_account, derive_program_address, DerivationExhausted,
};
use solana_sdk::pubkey::Pubkey;

fn addr(b: u8) -> Address {
    Address::new([b; 32])
}

fn pk(a: Address) -> Pubkey {
    Pubkey::new_from_array(a.bytes)
}

#[test]
fn associated_account_matches_spl() {
    for (o, m) in [(1u8, 2u8), (9, 9), (200, 17)] {
        let ours = derive_associated_account(
            addr(o),
            addr(m),
            Address::new(TOKEN_PROGRAM_ID),
            Address::new(ASSOCIATED_TOKEN_PROGRAM_ID),
        )
        .unwrap();
        let theirs =
            spl_associated_token_account::get_associated_token_address(&pk(addr(o)), &pk(addr(m)));
        assert_eq!(ours.bytes, theirs.to_bytes());
        assert_ne!(ours.bytes, addr(o).bytes);
    }
}

#[test]
fn associated_account_is_deterministic() {
    let derive = || {
        derive_associated_account(
            addr(3),
            addr(4),
            Address::new(TOKEN_PROGRAM_ID),
            Address::new(ASSOCIATED_TOKEN_PROGRAM_ID),
        )
        .unwrap()
        .bytes
    };
    let first = derive();
    for _ in 0..5 {
        assert_eq!(derive(), first);
    }
}

#[test]
fn program_address_matches_sdk() {
    let seeds = vec![vec![5u8; 32], b"curve".to_vec()];
    let program = Address::new(ASSOCIATED_TOKEN_PROGRAM_ID);
    let ours = derive_program_address(&seeds, program).unwrap();
    let (theirs, _) = Pubkey::find_program_address(&[&[5u8; 32], b"curve"], &pk(program));
    assert_eq!(ours.bytes, theirs.to_bytes());
}

#[test]
fn too_many_or_too_long_seeds_are_exhausted() {
    let program = Address::new(ASSOCIATED_TOKEN_PROGRAM_ID);
    let many = vec![vec![1u8]; 17];
    assert_eq!(derive_program_address(&many, program).unwrap_err(), DerivationExhausted);
    let long = vec![vec![1u8; 33]];
    assert_eq!(derive_program_address(&long, program).unwrap_err(), DerivationExhausted);
}

#[test]
fn create_account_instruction_is_idempotent_variant() {
    let payer = addr(7);
    let mint = addr(8);
    let token = Address::new(TOKEN_PROGRAM_ID);
    let ix = create_associated_token_account_idempotent(payer, payer, mint, token).unwrap();
    assert_eq!(ix.data, vec![1]);
    assert_eq!(ix.program_id.bytes, ASSOCIATED_TOKEN_PROGRAM_ID);
    assert_eq!(ix.accounts.len(), 6);
    let ata = derive_associated_account(payer, mint, token, Address::new(ASSOCIATED_TOKEN_PROGRAM_ID))
        .unwrap();
    let flags: Vec<([u8; 32], bool, bool)> =
        ix.accounts.iter().map(|m| (m.pubkey.bytes, m.is_signer, m.is_writable)).collect();
    assert_eq!(
        flags,
        vec![
            (payer.bytes, true, true),
            (ata.bytes, false, true),
            (payer.bytes, false, false),
            (mint.bytes, false, false),
            (SYSTEM_PROGRAM_ID, false, false),
            (TOKEN_PROGRAM_ID, false, false),
        ]
    );
    let theirs = spl_associated_token_account::instruction::create_associated_token_account_idempotent(
        &pk(payer),
        &pk(payer),
        &pk(mint),
        &pk(token),
    );
    assert_eq!(theirs.data, ix.data);
}
