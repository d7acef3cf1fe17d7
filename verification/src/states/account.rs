use crate::states::pubkey::Pubkey;
use crate::states::treasury::Treasury;
use crate::states::vault::Vault;
use vstd::prelude::*;

verus! {

/// An account as the chain holds it.
#[derive(Debug, Clone)]
pub struct Account {
    /// The balance, in the chain's smallest unit.
    pub lamports: u64,
    /// What the account stores.
    pub data: Vec<u8>,
    /// The program that owns the account.
    pub owner: Pubkey,
    /// Whether the account holds a program.
    pub executable: bool,
    /// The epoch at which rent is next due.
    pub rent_epoch: u64,
}

/// A loaded account, with what its data holds where that is a vault or a treasury.
#[derive(Debug, Clone)]
pub struct LoadedAccount {
    pub account: Account,
    /// The vault that the data holds, if it holds one.
    pub vault: Option<Vault>,
    /// The treasury that the data holds, if it holds one.
    pub treasury: Option<Treasury>,
}

} // verus!
