use vstd::prelude::*;
use vstd::array::array_as_slice;
use vstd::slice::slice_to_vec;

use crate::address::Address;

verus! {

/// The address that `Pubkey::try_find_program_address` finds for these seeds
/// and this program, or `None` where no bump byte gives one.
pub uninterp spec fn program_address_of(seeds: Seq<Seq<u8>>, program: Seq<u8>) -> Option<Seq<u8>>;

/// No candidate address was found within the bump-byte search.
#[derive(Clone, Copy, Debug, PartialEq, Eq)]
pub struct DerivationExhausted;

/// The byte strings of a list of seeds.
pub open spec fn seeds_view(seeds: Seq<Vec<u8>>) -> Seq<Seq<u8>> {
    seeds.map_values(|s: Vec<u8>| s@)
}

/// `r` is the outcome of a derivation whose result is `found`.
pub open spec fn derived_as(r: Result<Address, DerivationExhausted>, found: Option<Seq<u8>>) -> bool {
    match r {
        Ok(a) => found == Some(a@),
        Err(_) => found is None,
    }
}

/// Relies on `solana_program::pubkey::Pubkey::try_find_program_address`,
/// which walks the bump byte down from 255 and returns the first off-curve
/// address, or `None`; it depends on the seeds and the program alone.
#[verifier::external_body]
fn try_find_program_address(seeds: &Vec<Vec<u8>>, program: &Address) -> (r: Option<Address>)
    ensures
        match r {
            Some(a) => program_address_of(seeds_view(seeds@), program@) == Some(a@),
            None => program_address_of(seeds_view(seeds@), program@) is None,
        },
{
    let slices: Vec<&[u8]> = seeds.iter().map(|s| s.as_slice()).collect();
    let program = solana_sdk::pubkey::Pubkey::new_from_array(program.bytes);
    solana_sdk::pubkey::Pubkey::try_find_program_address(&slices, &program)
        .map(|(key, _bump)| Address::new(key.to_bytes()))
}

/// The program-derived address of `program` for `seeds`.
pub fn derive_program_address(seeds: &Vec<Vec<u8>>, program: Address) -> (r: Result<
    Address,
    DerivationExhausted,
>)
    ensures
        derived_as(r, program_address_of(seeds_view(seeds@), program@)),
{
    match try_find_program_address(seeds, &program) {
        Some(a) => Ok(a),
        None => Err(DerivationExhausted),
    }
}

/// The seeds of an associated token account: owner, token program, mint.
pub open spec fn associated_seeds(owner: Address, mint: Address, token_program: Address) -> Seq<
    Seq<u8>,
> {
    seq![owner@, token_program@, mint@]
}

/// The associated token account of `owner` for `mint`, as derived under
/// `associated_program`.
pub open spec fn associated_account_of(
    owner: Address,
    mint: Address,
    token_program: Address,
    associated_program: Address,
) -> Option<Seq<u8>> {
    program_address_of(associated_seeds(owner, mint, token_program), associated_program@)
}

/// The canonical token account of `owner` for `mint`.
pub fn derive_associated_account(
    owner: Address,
    mint: Address,
    token_program: Address,
    associated_program: Address,
) -> (r: Result<Address, DerivationExhausted>)
    ensures
        derived_as(r, associated_account_of(owner, mint, token_program, associated_program)),
{
    let seeds = vec![
        slice_to_vec(array_as_slice(&owner.bytes)),
        slice_to_vec(array_as_slice(&token_program.bytes)),
        slice_to_vec(array_as_slice(&mint.bytes)),
    ];
    assert(seeds_view(seeds@) =~= associated_seeds(owner, mint, token_program));
    derive_program_address(&seeds, associated_program)
}

/// Deriving an associated account is a function of its inputs: two
/// derivations from the same owner, mint and programs agree.
pub proof fn lemma_associated_account_deterministic(
    owner: Address,
    mint: Address,
    token_program: Address,
    associated_program: Address,
    first: Result<Address, DerivationExhausted>,
    second: Result<Address, DerivationExhausted>,
)
    requires
        derived_as(first, associated_account_of(owner, mint, token_program, associated_program)),
        derived_as(second, associated_account_of(owner, mint, token_program, associated_program)),
    ensures
        first == second,
{
    match (first, second) {
        (Ok(a), Ok(b)) => {
            assert(a.bytes =~= b.bytes);
            assert(a == b);
        },
        (Err(e), Err(f)) => {
            assert(e == f);
        },
        _ => {},
    }
}

} // verus!
