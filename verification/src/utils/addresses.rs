use crate::bindings::{program_address, try_find_program_address};
use crate::states::pubkey::Pubkey;
use crate::utils::{OXEDIUM_SEED, TREASURY_SEED, VAULT_SEED};
use vstd::prelude::*;
use vstd::slice::slice_to_vec;
use vstd::string::{StrSliceExecFns, StringSliceAdditionalSpecFns};

verus! {

/// The swap program.
pub const OXEDIUM_PROGRAM_ID: [u8; 32] = [
    12, 7, 160, 155, 138, 22, 254, 224, 172, 224, 78, 39, 61, 185, 84, 191, 75, 14, 171, 241, 138,
    182, 240, 252, 51, 196, 72, 46, 133, 252, 156, 144,
];

/// The token program.
pub const TOKEN_PROGRAM_ID: [u8; 32] = [
    6, 221, 246, 225, 215, 101, 161, 147, 217, 203, 225, 70, 206, 235, 121, 172, 28, 180, 133, 237,
    95, 91, 55, 145, 58, 140, 245, 133, 126, 255, 0, 169,
];

/// The token program with extensions.
pub const TOKEN_2022_PROGRAM_ID: [u8; 32] = [
    6, 221, 246, 225, 238, 117, 143, 222, 24, 66, 93, 188, 228, 108, 205, 218, 182, 26, 252, 77,
    131, 185, 13, 39, 254, 189, 249, 40, 216, 161, 139, 252,
];

/// The program that owns the token accounts derived from a wallet and a token.
pub const ASSOCIATED_TOKEN_PROGRAM_ID: [u8; 32] = [
    140, 151, 37, 143, 78, 36, 137, 241, 187, 61, 16, 41, 20, 142, 13, 131, 11, 90, 19, 153, 218,
    255, 16, 132, 4, 142, 123, 216, 219, 233, 248, 89,
];

/// The system program.
pub const SYSTEM_PROGRAM_ID: [u8; 32] = [
    0, 0, 0, 0, 0, 0, 0, 0, 0, 0, 0, 0, 0, 0, 0, 0, 0, 0, 0, 0, 0, 0, 0, 0, 0, 0, 0, 0, 0, 0, 0, 0,
];

/// The token that wraps the chain's own coin.
pub const WRAPPED_SOL_MINT: [u8; 32] = [
    6, 155, 136, 87, 254, 171, 129, 132, 251, 104, 127, 99, 70, 24, 192, 53, 218, 196, 57, 220, 26,
    235, 59, 85, 152, 160, 240, 0, 0, 0, 0, 1,
];

/// The dollar token.
pub const USDC_MINT: [u8; 32] = [
    198, 250, 122, 243, 190, 219, 173, 58, 61, 101, 243, 106, 171, 201, 116, 49, 177, 187, 228, 194,
    210, 246, 224, 228, 124, 166, 2, 3, 69, 47, 93, 97,
];

/// The address derived for a program from a list of seeds, without its bump seed.
pub open spec fn derived_address(seeds: Seq<Seq<u8>>, program_id: Seq<u8>) -> Option<Seq<u8>> {
    match program_address(seeds, program_id) {
        Some(found) => Some(found.0),
        None => None,
    }
}

/// The seeds of the treasury's address.
pub open spec fn treasury_seeds() -> Seq<Seq<u8>> {
    seq![OXEDIUM_SEED.spec_bytes(), TREASURY_SEED.spec_bytes()]
}

/// The seeds of the address of the vault that holds `mint`.
pub open spec fn vault_seeds(mint: Seq<u8>) -> Seq<Seq<u8>> {
    seq![VAULT_SEED.spec_bytes(), mint]
}

/// The seeds of the address of the token account of `wallet` for `mint`.
pub open spec fn associated_token_seeds(wallet: Seq<u8>, mint: Seq<u8>) -> Seq<Seq<u8>> {
    seq![wallet, TOKEN_PROGRAM_ID@, mint]
}

/// The treasury's address under the program `program_id`.
pub open spec fn treasury_address(program_id: Seq<u8>) -> Option<Seq<u8>> {
    derived_address(treasury_seeds(), program_id)
}

/// The address of the vault that holds `mint` under the program `program_id`.
pub open spec fn vault_address(program_id: Seq<u8>, mint: Seq<u8>) -> Option<Seq<u8>> {
    derived_address(vault_seeds(mint), program_id)
}

/// The address of the token account of `wallet` for `mint`, under the token program.
pub open spec fn associated_token_address(wallet: Seq<u8>, mint: Seq<u8>) -> Option<Seq<u8>> {
    derived_address(associated_token_seeds(wallet, mint), ASSOCIATED_TOKEN_PROGRAM_ID@)
}

/// The bytes of an optional address.
pub open spec fn address_bytes(address: Option<Pubkey>) -> Option<Seq<u8>> {
    match address {
        Some(key) => Some(key@),
        None => None,
    }
}

/// The bytes of an address, as a seed.
fn seed_of(key: &Pubkey) -> (seed: Vec<u8>)
    ensures
        seed@ == key@,
{
    slice_to_vec(key.bytes.as_slice())
}

/// Derives the address that belongs to `program_id` under `seeds`.
fn derive(seeds: &Vec<Vec<u8>>, program_id: &Pubkey) -> (r: Option<Pubkey>)
    ensures
        address_bytes(r) == derived_address(seeds.deep_view(), program_id@),
{
    match try_find_program_address(seeds, program_id) {
        Some(found) => Some(found.0),
        None => None,
    }
}

/// Derives the treasury's address under the program `program_id`.
pub fn find_treasury_address(program_id: &Pubkey) -> (r: Option<Pubkey>)
    ensures
        address_bytes(r) == treasury_address(program_id@),
{
    let mut seeds: Vec<Vec<u8>> = Vec::new();
    seeds.push(OXEDIUM_SEED.as_bytes_vec());
    seeds.push(TREASURY_SEED.as_bytes_vec());
    assert(seeds.deep_view() =~~= treasury_seeds());
    derive(&seeds, program_id)
}

/// Derives the address of the vault that holds `mint` under the program `program_id`.
pub fn find_vault_address(program_id: &Pubkey, mint: &Pubkey) -> (r: Option<Pubkey>)
    ensures
        address_bytes(r) == vault_address(program_id@, mint@),
{
    let mut seeds: Vec<Vec<u8>> = Vec::new();
    seeds.push(VAULT_SEED.as_bytes_vec());
    seeds.push(seed_of(mint));
    assert(seeds.deep_view() =~~= vault_seeds(mint@));
    derive(&seeds, program_id)
}

/// Derives the address of the token account of `wallet` for `mint`.
pub fn find_associated_token_address(wallet: &Pubkey, mint: &Pubkey) -> (r: Option<Pubkey>)
    ensures
        address_bytes(r) == associated_token_address(wallet@, mint@),
{
    let mut seeds: Vec<Vec<u8>> = Vec::new();
    seeds.push(seed_of(wallet));
    seeds.push(seed_of(&Pubkey::new_from_array(TOKEN_PROGRAM_ID)));
    seeds.push(seed_of(mint));
    assert(seeds.deep_view() =~~= associated_token_seeds(wallet@, mint@));
    derive(&seeds, &Pubkey::new_from_array(ASSOCIATED_TOKEN_PROGRAM_ID))
}

} // verus!
