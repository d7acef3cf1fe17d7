use vstd::prelude::*;

pub mod addresses;
pub mod first_match;
pub mod helpers;
pub mod pow10;

verus! {

/// Fixed-point unit in which amounts are held between the pricing steps.
pub const SCALE: u128 = 1_000_000_000_000_000_000;

/// Unit of the oracle prices: a price of one is written as ten to the eighth.
pub const PRICE_SCALE: u128 = 100_000_000;

/// Basis points that make up one whole.
pub const BPS_DENOMINATOR: u64 = 10_000;

/// First seed of every address that belongs to the protocol as a whole.
pub const OXEDIUM_SEED: &'static str = "oxedium-seed";

/// Second seed of the treasury's address.
pub const TREASURY_SEED: &'static str = "treasury-seed";

/// First seed of a vault's address; the second is the vault's token.
pub const VAULT_SEED: &'static str = "vault-seed";

} // verus!
