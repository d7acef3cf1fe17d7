use crate::states::pubkey::Pubkey;
use crate::states::pubkey_map::PubkeyMap;
use crate::states::treasury::Treasury;
use crate::states::vault::Vault;
use crate::utils::addresses::{
    find_treasury_address, treasury_address, OXEDIUM_PROGRAM_ID, USDC_MINT, WRAPPED_SOL_MINT,
};
use vstd::prelude::*;

pub mod accounts;
pub mod quote;
pub mod update;

pub use quote::{quote_from_result, QuoteInputs};

verus! {

/// The pool as last loaded: its vaults, its treasury, and the decimal counts and
/// oracle prices of the vaults' tokens.
#[derive(Debug)]
pub struct OxediumAmm {
    pub key: Pubkey,
    pub label: String,
    pub program_id: Pubkey,
    /// The vaults, each under its own address.
    pub vaults: PubkeyMap<Vault>,
    /// The treasury, with its address.
    pub treasury: Option<(Pubkey, Treasury)>,
    /// The decimal count of each token.
    pub decimals: PubkeyMap<u8>,
    /// The oracle price of each token.
    pub prices: PubkeyMap<u64>,
}

/// The tokens that the pool may hold.
pub open spec fn reserve_mints() -> Seq<Pubkey> {
    seq![Pubkey { bytes: WRAPPED_SOL_MINT }, Pubkey { bytes: USDC_MINT }]
}

impl OxediumAmm {
    /// The pool of the swap program, with nothing loaded yet. Its key is the
    /// treasury's address; there is no pool where that address cannot be derived.
    pub fn from_keyed_account() -> (r: Option<OxediumAmm>)
        ensures
            r is Some <==> treasury_address(OXEDIUM_PROGRAM_ID@) is Some,
            r matches Some(amm) ==> {
                &&& Some(amm.key@) == treasury_address(OXEDIUM_PROGRAM_ID@)
                &&& amm.label@ == "Oxedium"@
                &&& amm.program_id.bytes == OXEDIUM_PROGRAM_ID
                &&& amm.vaults@.len() == 0
                &&& amm.treasury is None
                &&& amm.decimals@.len() == 0
                &&& amm.prices@.len() == 0
            },
    {
        let program_id = Pubkey::new_from_array(OXEDIUM_PROGRAM_ID);
        match find_treasury_address(&program_id) {
            Some(treasury) => Some(
                OxediumAmm {
                    key: treasury,
                    label: "Oxedium".to_owned(),
                    program_id,
                    vaults: PubkeyMap::new(),
                    treasury: None,
                    decimals: PubkeyMap::new(),
                    prices: PubkeyMap::new(),
                },
            ),
            None => None,
        }
    }

    /// A pool with the same key, label and program, and nothing loaded.
    pub fn clone_amm(&self) -> (amm: OxediumAmm)
        ensures
            amm.key == self.key,
            amm.label@ == self.label@,
            amm.program_id == self.program_id,
            amm.vaults@.len() == 0,
            amm.treasury is None,
            amm.decimals@.len() == 0,
            amm.prices@.len() == 0,
    {
        OxediumAmm {
            key: self.key,
            label: self.label.clone(),
            program_id: self.program_id,
            vaults: PubkeyMap::new(),
            treasury: None,
            decimals: PubkeyMap::new(),
            prices: PubkeyMap::new(),
        }
    }

    /// The name of the pool.
    pub fn label(&self) -> (label: String)
        ensures
            label@ == self.label@,
    {
        self.label.clone()
    }

    /// The program that the pool belongs to.
    pub fn program_id(&self) -> (id: Pubkey)
        ensures
            id == self.program_id,
    {
        self.program_id
    }

    /// The address under which the pool is known.
    pub fn key(&self) -> (key: Pubkey)
        ensures
            key == self.key,
    {
        self.key
    }

    /// The tokens that the pool may hold.
    pub fn get_reserve_mints(&self) -> (mints: Vec<Pubkey>)
        ensures
            mints@ == reserve_mints(),
    {
        let mut mints: Vec<Pubkey> = Vec::new();
        mints.push(Pubkey::new_from_array(WRAPPED_SOL_MINT));
        mints.push(Pubkey::new_from_array(USDC_MINT));
        assert(mints@ =~= reserve_mints());
        mints
    }

    /// The accounts to load depend on the vaults that are known.
    pub fn has_dynamic_accounts(&self) -> (dynamic: bool)
        ensures
            dynamic,
    {
        true
    }

    /// The tokens of the pool are known without loading anything.
    pub fn requires_update_for_reserve_mints(&self) -> (required: bool)
        ensures
            !required,
    {
        false
    }

    /// Only the amount given can be fixed.
    pub fn supports_exact_out(&self) -> (supported: bool)
        ensures
            !supported,
    {
        false
    }

    /// Every pair of tokens can be swapped both ways.
    pub fn unidirectional(&self) -> (one_way: bool)
        ensures
            !one_way,
    {
        false
    }

    /// The pool calls no other program.
    pub fn program_dependencies(&self) -> (programs: Vec<(Pubkey, String)>)
        ensures
            programs@.len() == 0,
    {
        Vec::new()
    }

    /// An upper bound on the accounts of a swap instruction.
    pub fn get_accounts_len(&self) -> (n: usize)
        ensures
            n == 32,
    {
        32
    }

    /// The pool shares its reserves with no other pool.
    pub fn underlying_liquidities(&self) -> (shared: Option<Vec<Pubkey>>)
        ensures
            shared is None,
    {
        None
    }

    /// The pool always takes part in routing.
    pub fn is_active(&self) -> (active: bool)
        ensures
            active,
    {
        true
    }
}

} // verus!
