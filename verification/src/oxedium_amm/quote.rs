use crate::amm::{DecimalParts, Quote, QuoteParams};
use crate::bindings::{checked_decimal_quotient, decimal_quotient};
use crate::components::swap_math::{compute_swap_math, compute_swap_math_spec, SwapMathResult};
use crate::error::SwapMathError;
use crate::oxedium_amm::OxediumAmm;
use crate::states::pubkey::Pubkey;
use crate::states::pubkey_map::lookup;
use crate::states::vault::Vault;
use crate::utils::first_match::{first_match, lemma_first_match_at, lemma_first_match_none};
use vstd::prelude::*;

verus! {

/// Whether an entry is the vault of the token `mint`.
pub open spec fn holds_mint(mint: Pubkey) -> spec_fn((Pubkey, Vault)) -> bool {
    |entry: (Pubkey, Vault)| entry.1.token_mint == mint
}

/// The vault of the token `mint`: the first one, in the order of the map.
pub open spec fn vault_for_mint(vaults: Seq<(Pubkey, Vault)>, mint: Pubkey) -> Option<Vault> {
    match first_match(vaults, holds_mint(mint)) {
        Some(i) => Some(vaults[i].1),
        None => None,
    }
}

/// The quote that a swap result makes for the trader: the net amount is what is
/// received, and the three fees together are the fee.
pub open spec fn quote_of_result(
    amount: u64,
    fee_mint: Pubkey,
    result: SwapMathResult,
    fee_pct: Option<(i128, u32)>,
) -> Quote {
    Quote {
        in_amount: amount,
        out_amount: result.net_amount_out,
        fee_amount: result.total_fee() as u64,
        fee_mint,
        fee_pct: match fee_pct {
            Some(parts) => Some(DecimalParts { mantissa: parts.0, scale: parts.1 }),
            None => None,
        },
    }
}

/// Makes the quote of a swap result. `fee_pct` is the quotient of fee and amount
/// given, as mantissa and scale.
pub fn quote_from_result(
    amount: u64,
    fee_mint: Pubkey,
    result: &SwapMathResult,
    fee_pct: Option<(i128, u32)>,
) -> (quote: Quote)
    requires
        result.wf(),
    ensures
        quote == quote_of_result(amount, fee_mint, *result, fee_pct),
{
    let total_fee = result.lp_fee_amount + result.protocol_fee_amount + result.partner_fee_amount;
    Quote {
        in_amount: amount,
        out_amount: result.net_amount_out,
        fee_amount: total_fee,
        fee_mint,
        fee_pct: match fee_pct {
            Some(parts) => Some(DecimalParts { mantissa: parts.0, scale: parts.1 }),
            None => None,
        },
    }
}

/// What a quote is computed from, once everything it needs has been found.
#[derive(Debug, Clone, Copy)]
pub struct QuoteInputs {
    pub vault_in: Vault,
    pub vault_out: Vault,
    pub price_in: u64,
    pub price_out: u64,
    pub decimals_in: u8,
    pub decimals_out: u8,
    pub protocol_fee_bps: u64,
}

impl OxediumAmm {
    /// What a quote from `input_mint` to `output_mint` is computed from. A set
    /// switch stops everything; where the treasury, a vault, a price or a decimal
    /// count is not known, nothing stands in for it; and a vault that is not
    /// active takes part in no quote.
    pub open spec fn quote_inputs(&self, input_mint: Pubkey, output_mint: Pubkey) -> Result<
        QuoteInputs,
        SwapMathError,
    > {
        match self.treasury {
            None => Err(SwapMathError::MissingData),
            Some(treasury) => if treasury.1.stoptap {
                Err(SwapMathError::Stopped)
            } else {
                match (
                    vault_for_mint(self.vaults@, input_mint),
                    vault_for_mint(self.vaults@, output_mint),
                    lookup(self.prices@, input_mint),
                    lookup(self.prices@, output_mint),
                    lookup(self.decimals@, input_mint),
                    lookup(self.decimals@, output_mint),
                ) {
                    (
                        Some(vault_in),
                        Some(vault_out),
                        Some(price_in),
                        Some(price_out),
                        Some(decimals_in),
                        Some(decimals_out),
                    ) => if !vault_in.is_active || !vault_out.is_active {
                        Err(SwapMathError::InactiveVault)
                    } else {
                        Ok(
                            QuoteInputs {
                                vault_in,
                                vault_out,
                                price_in,
                                price_out,
                                decimals_in,
                                decimals_out,
                                protocol_fee_bps: treasury.1.fee_bps,
                            },
                        )
                    },
                    _ => Err(SwapMathError::MissingData),
                }
            },
        }
    }

    /// What `quote` returns: the swap of the inputs found, at the treasury's rate
    /// and without a partner fee, turned into a quote.
    pub open spec fn quote_spec(&self, params: QuoteParams) -> Result<Quote, SwapMathError> {
        match self.quote_inputs(params.input_mint, params.output_mint) {
            Err(e) => Err(e),
            Ok(inputs) => match compute_swap_math_spec(
                params.amount,
                inputs.price_in,
                inputs.price_out,
                inputs.decimals_in,
                inputs.decimals_out,
                inputs.vault_in,
                inputs.vault_out,
                inputs.protocol_fee_bps,
                0,
            ) {
                Err(e) => Err(e),
                Ok(result) => Ok(
                    quote_of_result(
                        params.amount,
                        inputs.vault_out.token_mint,
                        result,
                        decimal_quotient(result.total_fee() as u64, params.amount),
                    ),
                ),
            },
        }
    }

    /// The vault of the token `mint`.
    pub fn find_vault(&self, mint: &Pubkey) -> (r: Option<Vault>)
        ensures
            r == vault_for_mint(self.vaults@, *mint),
    {
        let mut i: usize = 0;
        while i < self.vaults.len()
            invariant
                i <= self.vaults@.len(),
                forall|j: int| 0 <= j < i ==> !holds_mint(*mint)(#[trigger] self.vaults@[j]),
            decreases self.vaults@.len() - i,
        {
            let entry = self.vaults.entry_at(i);
            if entry.1.token_mint == *mint {
                proof {
                    lemma_first_match_at(self.vaults@, holds_mint(*mint), i as int);
                }
                return Some(entry.1);
            }
            i = i + 1;
        }
        proof {
            lemma_first_match_none(self.vaults@, holds_mint(*mint));
        }
        None
    }

    /// Finds what a quote from `input_mint` to `output_mint` is computed from.
    pub fn find_quote_inputs(&self, input_mint: &Pubkey, output_mint: &Pubkey) -> (r: Result<
        QuoteInputs,
        SwapMathError,
    >)
        ensures
            r == self.quote_inputs(*input_mint, *output_mint),
            r matches Ok(inputs) ==> inputs.vault_in.is_active && inputs.vault_out.is_active,
    {
        let treasury = match &self.treasury {
            Some(treasury) => treasury.1,
            None => {
                return Err(SwapMathError::MissingData);
            },
        };
        if treasury.stoptap {
            return Err(SwapMathError::Stopped);
        }
        let vault_in = self.find_vault(input_mint);
        let vault_out = self.find_vault(output_mint);
        let price_in = self.prices.get(input_mint);
        let price_out = self.prices.get(output_mint);
        let decimals_in = self.decimals.get(input_mint);
        let decimals_out = self.decimals.get(output_mint);
        match (vault_in, vault_out, price_in, price_out, decimals_in, decimals_out) {
            (
                Some(vault_in),
                Some(vault_out),
                Some(price_in),
                Some(price_out),
                Some(decimals_in),
                Some(decimals_out),
            ) => {
                if !vault_in.is_active || !vault_out.is_active {
                    return Err(SwapMathError::InactiveVault);
                }
                Ok(
                    QuoteInputs {
                        vault_in,
                        vault_out,
                        price_in: *price_in,
                        price_out: *price_out,
                        decimals_in: *decimals_in,
                        decimals_out: *decimals_out,
                        protocol_fee_bps: treasury.fee_bps,
                    },
                )
            },
            _ => Err(SwapMathError::MissingData),
        }
    }

    /// Quotes the swap that `params` asks for against the pool as last loaded.
    /// No quote is given while the treasury's switch is set, nor against a vault
    /// that is not active. Whether the prices are fresh enough is for the caller
    /// to see to: the pool holds neither the time nor the age of a price.
    pub fn quote(&self, params: &QuoteParams) -> (r: Result<Quote, SwapMathError>)
        ensures
            r == self.quote_spec(*params),
            self.treasury matches Some(treasury) && treasury.1.stoptap ==> r is Err,
            (vault_for_mint(self.vaults@, params.input_mint) matches Some(v) && !v.is_active)
                || (vault_for_mint(self.vaults@, params.output_mint) matches Some(v)
                && !v.is_active) ==> r is Err,
            r matches Ok(quote) ==> quote.in_amount == params.amount,
            r matches Ok(quote) ==> params.amount == 0 ==> quote.fee_pct is None,
    {
        let inputs = match self.find_quote_inputs(&params.input_mint, &params.output_mint) {
            Ok(inputs) => inputs,
            Err(e) => {
                return Err(e);
            },
        };
        let result = match compute_swap_math(
            params.amount,
            inputs.price_in,
            inputs.price_out,
            inputs.decimals_in,
            inputs.decimals_out,
            &inputs.vault_in,
            &inputs.vault_out,
            inputs.protocol_fee_bps,
            0,
        ) {
            Ok(result) => result,
            Err(e) => {
                return Err(e);
            },
        };
        let total_fee = result.lp_fee_amount + result.protocol_fee_amount
            + result.partner_fee_amount;
        let fee_pct = checked_decimal_quotient(total_fee, params.amount);
        Ok(quote_from_result(params.amount, inputs.vault_out.token_mint, &result, fee_pct))
    }
}

} // verus!
