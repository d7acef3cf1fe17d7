use crate::states::pubkey::{Pubkey, ZERO_BYTES};
use vstd::prelude::*;

verus! {

/// The protocol's single account: its fee rate and its switch that stops all swaps.
#[derive(Debug, Clone, Copy)]
pub struct Treasury {
    /// While set, no quote is given.
    pub stoptap: bool,
    /// Who may change the treasury.
    pub admin: Pubkey,
    /// The protocol's fee rate, in basis points.
    pub fee_bps: u64,
}

impl Default for Treasury {
    /// A treasury that takes no fee and stops nothing.
    fn default() -> (treasury: Treasury)
        ensures
            !treasury.stoptap,
            treasury.admin.bytes == ZERO_BYTES,
            treasury.fee_bps == 0,
    {
        Treasury { stoptap: false, admin: Pubkey::default(), fee_bps: 0 }
    }
}

} // verus!
