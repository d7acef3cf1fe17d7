use crate::amm::{AccountMeta, Swap, SwapAndAccountMetas, SwapParams};
use crate::oxedium_amm::{reserve_mints, OxediumAmm};
use crate::states::pubkey::Pubkey;
use crate::states::vault::Vault;
use crate::utils::addresses::{
    associated_token_address, find_associated_token_address, find_treasury_address,
    find_vault_address, treasury_address, vault_address, ASSOCIATED_TOKEN_PROGRAM_ID,
    SYSTEM_PROGRAM_ID, TOKEN_PROGRAM_ID,
};
use vstd::prelude::*;

verus! {

/// The bytes of each address of a list.
pub open spec fn keys_bytes(keys: Seq<Pubkey>) -> Seq<Seq<u8>> {
    keys.map_values(|key: Pubkey| key@)
}

/// What each account of a list is to its instruction.
pub open spec fn metas_view(metas: Seq<AccountMeta>) -> Seq<(Seq<u8>, bool, bool)> {
    metas.map_values(|meta: AccountMeta| meta@)
}

/// For each of the first `n` tokens of `mints`, the address of its vault under
/// the program and then the token itself; nothing where one of these addresses
/// cannot be derived.
pub open spec fn mint_accounts(program_id: Seq<u8>, mints: Seq<Pubkey>, n: nat) -> Option<
    Seq<Seq<u8>>,
>
    decreases n,
{
    if n == 0 {
        Some(Seq::empty())
    } else {
        match (
            mint_accounts(program_id, mints, (n - 1) as nat),
            vault_address(program_id, mints[n - 1]@),
        ) {
            (Some(before), Some(vault)) => Some(before.push(vault).push(mints[n - 1]@)),
            _ => None,
        }
    }
}

/// The oracle account of each vault, in the order of the vaults.
pub open spec fn oracle_accounts(vaults: Seq<(Pubkey, Vault)>) -> Seq<Seq<u8>> {
    vaults.map_values(|entry: (Pubkey, Vault)| entry.1.pyth_price_account@)
}

/// The accounts that have to be loaded before the pool can quote: the treasury,
/// then vault and token for each token the pool may hold, then the oracle
/// account of each vault that is already known.
pub open spec fn accounts_to_update_spec(
    program_id: Seq<u8>,
    vaults: Seq<(Pubkey, Vault)>,
) -> Option<Seq<Seq<u8>>> {
    match (
        treasury_address(program_id),
        mint_accounts(program_id, reserve_mints(), reserve_mints().len()),
    ) {
        (Some(treasury), Some(per_mint)) => Some(
            seq![treasury] + per_mint + oracle_accounts(vaults),
        ),
        _ => None,
    }
}

/// The accounts of a swap instruction, in the order the program expects: each
/// with its address, whether it signs and whether it may be changed.
pub open spec fn swap_account_metas_spec(program_id: Seq<u8>, params: SwapParams) -> Option<
    Seq<(Seq<u8>, bool, bool)>,
> {
    match (
        treasury_address(program_id),
        vault_address(program_id, params.source_mint@),
        vault_address(program_id, params.destination_mint@),
    ) {
        (Some(treasury), Some(vault_in), Some(vault_out)) => match (
            associated_token_address(treasury, params.source_mint@),
            associated_token_address(treasury, params.destination_mint@),
        ) {
            (Some(treasury_in), Some(treasury_out)) => Some(
                seq![
                    (params.token_transfer_authority@, true, true),
                    (params.source_mint@, false, false),
                    (params.destination_mint@, false, false),
                    (vault_in, false, true),
                    (vault_out, false, true),
                    (params.source_token_account@, false, true),
                    (params.destination_token_account@, false, true),
                    (treasury, false, true),
                    (treasury_in, false, true),
                    (treasury_out, false, true),
                    (ASSOCIATED_TOKEN_PROGRAM_ID@, false, false),
                    (TOKEN_PROGRAM_ID@, false, false),
                    (SYSTEM_PROGRAM_ID@, false, false),
                ],
            ),
            _ => None,
        },
        _ => None,
    }
}

/// Once the accounts of some tokens cannot be derived, those of more tokens cannot either.
proof fn lemma_mint_accounts_none(program_id: Seq<u8>, mints: Seq<Pubkey>, n: nat, m: nat)
    requires
        n <= m,
        mint_accounts(program_id, mints, n) is None,
    ensures
        mint_accounts(program_id, mints, m) is None,
    decreases m,
{
    if n < m {
        lemma_mint_accounts_none(program_id, mints, n, (m - 1) as nat);
    }
}

impl OxediumAmm {
    /// Lists the accounts that have to be loaded before the pool can quote.
    pub fn get_accounts_to_update(&self) -> (r: Option<Vec<Pubkey>>)
        ensures
            r matches Some(accounts) ==> Some(keys_bytes(accounts@)) == accounts_to_update_spec(
                self.program_id@,
                self.vaults@,
            ),
            r is None ==> accounts_to_update_spec(self.program_id@, self.vaults@) is None,
    {
        let treasury = match find_treasury_address(&self.program_id) {
            Some(treasury) => treasury,
            None => {
                return None;
            },
        };
        let mut accounts: Vec<Pubkey> = Vec::new();
        accounts.push(treasury);
        let mints = self.get_reserve_mints();
        let ghost pid = self.program_id@;
        let mut i: usize = 0;
        assert(keys_bytes(accounts@) =~= seq![treasury@] + Seq::<Seq<u8>>::empty());
        while i < mints.len()
            invariant
                i <= mints@.len(),
                mints@ == reserve_mints(),
                pid == self.program_id@,
                mint_accounts(pid, mints@, i as nat) is Some,
                keys_bytes(accounts@) == seq![treasury@] + mint_accounts(
                    pid,
                    mints@,
                    i as nat,
                )->Some_0,
            decreases mints@.len() - i,
        {
            let mint = mints[i];
            let ghost before = accounts@;
            match find_vault_address(&self.program_id, &mint) {
                Some(vault) => {
                    accounts.push(vault);
                    accounts.push(mint);
                    assert(keys_bytes(accounts@) =~= keys_bytes(before).push(vault@).push(mint@));
                    assert(keys_bytes(accounts@) =~= seq![treasury@] + mint_accounts(
                        pid,
                        mints@,
                        (i + 1) as nat,
                    )->Some_0);
                },
                None => {
                    proof {
                        assert(mint_accounts(pid, mints@, (i + 1) as nat) is None);
                        lemma_mint_accounts_none(pid, mints@, (i + 1) as nat, mints@.len());
                    }
                    return None;
                },
            }
            i = i + 1;
        }
        let ghost head = accounts@;
        let mut j: usize = 0;
        assert(keys_bytes(accounts@) =~= keys_bytes(head) + oracle_accounts(
            self.vaults@.subrange(0, 0),
        ));
        while j < self.vaults.len()
            invariant
                j <= self.vaults@.len(),
                keys_bytes(accounts@) == keys_bytes(head) + oracle_accounts(
                    self.vaults@.subrange(0, j as int),
                ),
            decreases self.vaults@.len() - j,
        {
            let ghost before = accounts@;
            let entry = self.vaults.entry_at(j);
            accounts.push(entry.1.pyth_price_account);
            assert(keys_bytes(accounts@) =~= keys_bytes(before).push(entry.1.pyth_price_account@));
            assert(oracle_accounts(self.vaults@.subrange(0, j + 1)) =~= oracle_accounts(
                self.vaults@.subrange(0, j as int),
            ).push(entry.1.pyth_price_account@));
            j = j + 1;
        }
        assert(self.vaults@.subrange(0, j as int) =~= self.vaults@);
        Some(accounts)
    }

    /// Lists the accounts of the swap instruction that `params` asks for.
    pub fn get_swap_and_account_metas(&self, params: &SwapParams) -> (r: Option<
        SwapAndAccountMetas,
    >)
        ensures
            r matches Some(swap) ==> swap.swap == Swap::Oxedium && Some(
                metas_view(swap.account_metas@),
            ) == swap_account_metas_spec(self.program_id@, *params),
            r is None ==> swap_account_metas_spec(self.program_id@, *params) is None,
    {
        let treasury = match find_treasury_address(&self.program_id) {
            Some(key) => key,
            None => {
                return None;
            },
        };
        let vault_in = match find_vault_address(&self.program_id, &params.source_mint) {
            Some(key) => key,
            None => {
                return None;
            },
        };
        let vault_out = match find_vault_address(&self.program_id, &params.destination_mint) {
            Some(key) => key,
            None => {
                return None;
            },
        };
        let treasury_in = match find_associated_token_address(&treasury, &params.source_mint) {
            Some(key) => key,
            None => {
                return None;
            },
        };
        let treasury_out = match find_associated_token_address(
            &treasury,
            &params.destination_mint,
        ) {
            Some(key) => key,
            None => {
                return None;
            },
        };
        let mut metas: Vec<AccountMeta> = Vec::with_capacity(13);
        metas.push(AccountMeta::new(params.token_transfer_authority, true));
        metas.push(AccountMeta::new_readonly(params.source_mint, false));
        metas.push(AccountMeta::new_readonly(params.destination_mint, false));
        metas.push(AccountMeta::new(vault_in, false));
        metas.push(AccountMeta::new(vault_out, false));
        metas.push(AccountMeta::new(params.source_token_account, false));
        metas.push(AccountMeta::new(params.destination_token_account, false));
        metas.push(AccountMeta::new(treasury, false));
        metas.push(AccountMeta::new(treasury_in, false));
        metas.push(AccountMeta::new(treasury_out, false));
        metas.push(
            AccountMeta::new_readonly(Pubkey::new_from_array(ASSOCIATED_TOKEN_PROGRAM_ID), false),
        );
        metas.push(AccountMeta::new_readonly(Pubkey::new_from_array(TOKEN_PROGRAM_ID), false));
        metas.push(AccountMeta::new_readonly(Pubkey::new_from_array(SYSTEM_PROGRAM_ID), false));
        assert(metas_view(metas@) =~= swap_account_metas_spec(self.program_id@, *params)->Some_0);
        Some(SwapAndAccountMetas { swap: Swap::Oxedium, account_metas: metas })
    }
}

} // verus!
