use crate::states::vault::Vault;
use vstd::prelude::*;

verus! {

/// The liquidity providers' fee rate of a swap between two vaults, in basis
/// points: the higher of the two vaults' base fees, so that neither side is
/// paid less than it asks, whichever way the swap goes.
pub open spec fn fees_setting_spec(vault_in: Vault, vault_out: Vault) -> u64 {
    if vault_in.base_fee >= vault_out.base_fee {
        vault_in.base_fee
    } else {
        vault_out.base_fee
    }
}

/// Resolves the liquidity providers' fee rate of a swap from `vault_in` to `vault_out`.
pub fn fees_setting(vault_in: &Vault, vault_out: &Vault) -> (swap_fee_bps: u64)
    ensures
        swap_fee_bps == fees_setting_spec(*vault_in, *vault_out),
        swap_fee_bps >= vault_in.base_fee,
        swap_fee_bps >= vault_out.base_fee,
        swap_fee_bps == vault_in.base_fee || swap_fee_bps == vault_out.base_fee,
{
    if vault_in.base_fee >= vault_out.base_fee {
        vault_in.base_fee
    } else {
        vault_out.base_fee
    }
}

/// The rate does not depend on the direction of the swap.
pub proof fn lemma_fees_setting_symmetric(a: Vault, b: Vault)
    ensures
        fees_setting_spec(a, b) == fees_setting_spec(b, a),
{
}

} // verus!
