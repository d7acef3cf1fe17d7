use crate::oxedium_amm::OxediumAmm;
use crate::states::account::LoadedAccount;
use crate::states::pubkey::Pubkey;
use crate::states::pubkey_map::{insert_spec, lookup, PubkeyMap};
use crate::states::treasury::Treasury;
use crate::states::vault::Vault;
use crate::utils::helpers::{
    parse_mint_decimals, parse_mint_decimals_spec, parse_pyth_price, parse_pyth_price_spec,
};
use vstd::prelude::*;

verus! {

/// The vaults found in the first `n` loaded accounts: every account that the
/// program owns and whose data holds a vault, under the account's address.
pub open spec fn vaults_after(
    accounts: Seq<(Pubkey, LoadedAccount)>,
    program_id: Pubkey,
    n: nat,
) -> Seq<(Pubkey, Vault)>
    decreases n,
{
    if n == 0 {
        Seq::empty()
    } else {
        let before = vaults_after(accounts, program_id, (n - 1) as nat);
        let entry = accounts[n - 1];
        if entry.1.account.owner == program_id && entry.1.vault is Some {
            insert_spec(before, entry.0, entry.1.vault->Some_0)
        } else {
            before
        }
    }
}

/// The treasury found in the first `n` loaded accounts: the last account that
/// the program owns and whose data holds no vault but a treasury.
pub open spec fn treasury_after(
    accounts: Seq<(Pubkey, LoadedAccount)>,
    program_id: Pubkey,
    n: nat,
) -> Option<(Pubkey, Treasury)>
    decreases n,
{
    if n == 0 {
        None
    } else {
        let before = treasury_after(accounts, program_id, (n - 1) as nat);
        let entry = accounts[n - 1];
        if entry.1.account.owner == program_id && entry.1.vault is None && entry.1.treasury
            is Some {
            Some((entry.0, entry.1.treasury->Some_0))
        } else {
            before
        }
    }
}

/// The decimal counts found for the tokens of the first `n` vaults: one for each
/// token whose mint is among the loaded accounts and can be read.
pub open spec fn decimals_after(
    vaults: Seq<(Pubkey, Vault)>,
    accounts: Seq<(Pubkey, LoadedAccount)>,
    n: nat,
) -> Seq<(Pubkey, u8)>
    decreases n,
{
    if n == 0 {
        Seq::empty()
    } else {
        let before = decimals_after(vaults, accounts, (n - 1) as nat);
        let mint = vaults[n - 1].1.token_mint;
        match lookup(accounts, mint) {
            Some(loaded) => match parse_mint_decimals_spec(
                loaded.account.owner,
                loaded.account.data@,
            ) {
                Ok(decimals) => insert_spec(before, mint, decimals),
                Err(_) => before,
            },
            None => before,
        }
    }
}

/// The prices found for the tokens of the first `n` vaults: one for each token
/// whose oracle account is among the loaded accounts and can be read.
pub open spec fn prices_after(
    vaults: Seq<(Pubkey, Vault)>,
    accounts: Seq<(Pubkey, LoadedAccount)>,
    n: nat,
) -> Seq<(Pubkey, u64)>
    decreases n,
{
    if n == 0 {
        Seq::empty()
    } else {
        let before = prices_after(vaults, accounts, (n - 1) as nat);
        let vault = vaults[n - 1].1;
        match lookup(accounts, vault.pyth_price_account) {
            Some(loaded) => match parse_pyth_price_spec(loaded.account.data@) {
                Ok(price) => insert_spec(before, vault.token_mint, price),
                Err(_) => before,
            },
            None => before,
        }
    }
}

/// Whether quotes may be given: the treasury is known and its switch is not set.
pub open spec fn is_live(treasury: Option<(Pubkey, Treasury)>) -> bool {
    treasury matches Some(found) && !found.1.stoptap
}

impl OxediumAmm {
    /// Replaces everything loaded by what `accounts` holds. Vaults and treasury
    /// are taken from the accounts that the program owns. Decimal counts and
    /// prices are read only while quotes may be given; one that cannot be read
    /// is left out.
    pub fn update(&mut self, accounts: &PubkeyMap<LoadedAccount>)
        ensures
            final(self).key == old(self).key,
            final(self).label == old(self).label,
            final(self).program_id == old(self).program_id,
            final(self).vaults@ == vaults_after(
                accounts@,
                old(self).program_id,
                accounts@.len(),
            ),
            final(self).treasury == treasury_after(
                accounts@,
                old(self).program_id,
                accounts@.len(),
            ),
            final(self).decimals@ == (if is_live(final(self).treasury) {
                decimals_after(final(self).vaults@, accounts@, final(self).vaults@.len())
            } else {
                Seq::empty()
            }),
            final(self).prices@ == (if is_live(final(self).treasury) {
                prices_after(final(self).vaults@, accounts@, final(self).vaults@.len())
            } else {
                Seq::empty()
            }),
    {
        let program_id = self.program_id;
        let mut vaults: PubkeyMap<Vault> = PubkeyMap::new();
        let mut treasury: Option<(Pubkey, Treasury)> = None;
        let mut i: usize = 0;
        while i < accounts.len()
            invariant
                i <= accounts@.len(),
                vaults@ == vaults_after(accounts@, program_id, i as nat),
                treasury == treasury_after(accounts@, program_id, i as nat),
            decreases accounts@.len() - i,
        {
            let entry = accounts.entry_at(i);
            if entry.1.account.owner == program_id {
                match entry.1.vault {
                    Some(vault) => {
                        vaults.insert(entry.0, vault);
                    },
                    None => match entry.1.treasury {
                        Some(found) => {
                            treasury = Some((entry.0, found));
                        },
                        None => {},
                    },
                }
            }
            i = i + 1;
        }
        let mut decimals: PubkeyMap<u8> = PubkeyMap::new();
        let mut prices: PubkeyMap<u64> = PubkeyMap::new();
        let live = match &treasury {
            Some(found) => !found.1.stoptap,
            None => false,
        };
        if live {
            let mut j: usize = 0;
            while j < vaults.len()
                invariant
                    j <= vaults@.len(),
                    decimals@ == decimals_after(vaults@, accounts@, j as nat),
                decreases vaults@.len() - j,
            {
                let mint = vaults.entry_at(j).1.token_mint;
                match accounts.get(&mint) {
                    Some(loaded) => match parse_mint_decimals(&loaded.account) {
                        Ok(found) => {
                            decimals.insert(mint, found);
                        },
                        Err(_) => {},
                    },
                    None => {},
                }
                j = j + 1;
            }
            let mut k: usize = 0;
            while k < vaults.len()
                invariant
                    k <= vaults@.len(),
                    prices@ == prices_after(vaults@, accounts@, k as nat),
                decreases vaults@.len() - k,
            {
                let vault = vaults.entry_at(k).1;
                match accounts.get(&vault.pyth_price_account) {
                    Some(loaded) => match parse_pyth_price(&loaded.account) {
                        Ok(price) => {
                            prices.insert(vault.token_mint, price);
                        },
                        Err(_) => {},
                    },
                    None => {},
                }
                k = k + 1;
            }
        }
        self.vaults = vaults;
        self.treasury = treasury;
        self.decimals = decimals;
        self.prices = prices;
    }
}

} // verus!
