use crate::states::pubkey::Pubkey;
use vstd::prelude::*;

verus! {

/// One side of a liquidity pool: the reserve of one token and its terms.
#[derive(Debug, Clone, Copy)]
pub struct Vault {
    /// The token held.
    pub token_mint: Pubkey,
    /// The oracle account that prices the token.
    pub pyth_price_account: Pubkey,
    /// When the vault was created, in seconds.
    pub create_at_ts: i64,
    /// Whether the vault takes part in swaps.
    pub is_active: bool,
    /// The fee rate asked by the vault's liquidity providers, in basis points.
    pub base_fee: u64,
    /// The oldest price that may be used, in seconds.
    pub max_age_price: u64,
    /// The token that stands for a share of the vault.
    pub lp_mint: Pubkey,
    /// The reserve at creation, in smallest units.
    pub initial_liquidity: u64,
    /// The reserve now, in smallest units.
    pub current_liquidity: u64,
    /// The largest reserve the vault accepts, in smallest units.
    pub max_liquidity: u64,
    /// Yield earned so far by one share.
    pub cumulative_yield_per_lp: u128,
    /// Yield earned so far by the protocol.
    pub protocol_yield: u64,
}

impl Vault {
    /// The reserve never exceeds the vault's limit.
    pub open spec fn wf(&self) -> bool {
        self.current_liquidity <= self.max_liquidity
    }

    /// Whether the reserve is within the vault's limit.
    pub fn is_well_formed(&self) -> (ok: bool)
        ensures
            ok == self.wf(),
    {
        self.current_liquidity <= self.max_liquidity
    }
}

} // verus!
