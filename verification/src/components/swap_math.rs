use crate::components::calculate_fee_amount::{
    calculate_fee_amount, fee_amount, lemma_fee_amount_bounds, lemma_fees_within_gross,
    net_amount,
};
use crate::components::fees_setting::{fees_setting, fees_setting_spec};
use crate::components::raw_amount_out::{raw_amount_out, raw_amount_out_spec};
use crate::error::{PriceError, SwapMathError};
use crate::states::vault::Vault;
use crate::utils::BPS_DENOMINATOR;
use vstd::prelude::*;

verus! {

/// The outcome of a swap: the gross output amount and how it is shared out.
#[derive(Debug, Clone, Copy, PartialEq, Eq, Structural)]
pub struct SwapMathResult {
    /// The liquidity providers' fee rate that was applied, in basis points.
    pub swap_fee_bps: u64,
    /// The output amount before fees.
    pub raw_amount_out: u64,
    /// What the trader receives.
    pub net_amount_out: u64,
    /// What the liquidity providers receive.
    pub lp_fee_amount: u64,
    /// What the protocol receives.
    pub protocol_fee_amount: u64,
    /// What the partner receives.
    pub partner_fee_amount: u64,
}

impl SwapMathResult {
    /// Net amount and fees add up to the gross amount, to the last unit.
    pub open spec fn wf(&self) -> bool {
        self.net_amount_out + self.lp_fee_amount + self.protocol_fee_amount
            + self.partner_fee_amount == self.raw_amount_out
    }

    /// The three fees together.
    pub open spec fn total_fee(&self) -> int {
        self.lp_fee_amount + self.protocol_fee_amount + self.partner_fee_amount
    }
}

/// The result of a swap whose gross output is `raw_out`, at the three given rates.
pub open spec fn swap_result_of(
    raw_out: u64,
    swap_fee_bps: u64,
    protocol_fee_bps: u64,
    partner_fee_bps: u64,
) -> SwapMathResult {
    SwapMathResult {
        swap_fee_bps,
        raw_amount_out: raw_out,
        net_amount_out: net_amount(
            raw_out as int,
            swap_fee_bps as int,
            protocol_fee_bps as int,
            partner_fee_bps as int,
        ) as u64,
        lp_fee_amount: fee_amount(raw_out as int, swap_fee_bps as int) as u64,
        protocol_fee_amount: fee_amount(raw_out as int, protocol_fee_bps as int) as u64,
        partner_fee_amount: fee_amount(raw_out as int, partner_fee_bps as int) as u64,
    }
}

/// What `compute_swap_math` returns. The checks come in this order: the pricing,
/// the cap on the three rates together, the reserve of the output vault, which
/// has to cover the whole gross amount, fees included.
pub open spec fn compute_swap_math_spec(
    amount_in: u64,
    price_in: u64,
    price_out: u64,
    decimals_in: u8,
    decimals_out: u8,
    vault_in: Vault,
    vault_out: Vault,
    protocol_fee_bps: u64,
    partner_fee_bps: u64,
) -> Result<SwapMathResult, SwapMathError> {
    let swap_fee_bps = fees_setting_spec(vault_in, vault_out);
    match raw_amount_out_spec(
        amount_in,
        decimals_in as u32,
        decimals_out as u32,
        price_in,
        price_out,
    ) {
        Err(e) => Err(SwapMathError::PricingFailed(e)),
        Ok(raw_out) => {
            if swap_fee_bps + protocol_fee_bps + partner_fee_bps > BPS_DENOMINATOR {
                Err(SwapMathError::FeesExceedMaximum)
            } else if vault_out.current_liquidity < raw_out {
                Err(SwapMathError::InsufficientLiquidity)
            } else {
                Ok(swap_result_of(raw_out, swap_fee_bps, protocol_fee_bps, partner_fee_bps))
            }
        },
    }
}

/// Quotes a swap of `amount_in` from `vault_in` to `vault_out` at the given oracle
/// prices: the gross output amount, the fees taken from it and what is left.
pub fn compute_swap_math(
    amount_in: u64,
    price_in: u64,
    price_out: u64,
    decimals_in: u8,
    decimals_out: u8,
    vault_in: &Vault,
    vault_out: &Vault,
    protocol_fee_bps: u64,
    partner_fee_bps: u64,
) -> (r: Result<SwapMathResult, SwapMathError>)
    ensures
        r == compute_swap_math_spec(
            amount_in,
            price_in,
            price_out,
            decimals_in,
            decimals_out,
            *vault_in,
            *vault_out,
            protocol_fee_bps,
            partner_fee_bps,
        ),
        r matches Ok(res) ==> res.wf() && res.raw_amount_out <= vault_out.current_liquidity,
        fees_setting_spec(*vault_in, *vault_out) + protocol_fee_bps + partner_fee_bps
            > BPS_DENOMINATOR ==> r is Err,
        price_out == 0 ==> r == Err::<SwapMathResult, SwapMathError>(
            SwapMathError::PricingFailed(PriceError::InvalidPrice),
        ),
        !(r matches Err(SwapMathError::FeeCalculationFailed(_))),
        r != Err::<SwapMathResult, SwapMathError>(SwapMathError::AccountingOverflow),
        r != Err::<SwapMathResult, SwapMathError>(SwapMathError::MissingData),
        r != Err::<SwapMathResult, SwapMathError>(SwapMathError::Stopped),
        r != Err::<SwapMathResult, SwapMathError>(SwapMathError::InactiveVault),
{
    let swap_fee_bps = fees_setting(vault_in, vault_out);
    let raw_out = match raw_amount_out(
        amount_in,
        decimals_in as u32,
        decimals_out as u32,
        price_in,
        price_out,
    ) {
        Ok(raw_out) => raw_out,
        Err(e) => {
            return Err(SwapMathError::PricingFailed(e));
        },
    };
    if swap_fee_bps as u128 + protocol_fee_bps as u128 + partner_fee_bps as u128
        > BPS_DENOMINATOR as u128 {
        return Err(SwapMathError::FeesExceedMaximum);
    }
    let (after_fee, lp_fee, protocol_fee, partner_fee) = match calculate_fee_amount(
        raw_out,
        swap_fee_bps,
        protocol_fee_bps,
        partner_fee_bps,
    ) {
        Ok(split) => split,
        Err(e) => {
            return Err(SwapMathError::FeeCalculationFailed(e));
        },
    };
    let total_out = match checked_sum(after_fee, lp_fee, protocol_fee, partner_fee) {
        Some(total) => total,
        None => {
            return Err(SwapMathError::AccountingOverflow);
        },
    };
    if vault_out.current_liquidity < total_out {
        return Err(SwapMathError::InsufficientLiquidity);
    }
    Ok(
        SwapMathResult {
            swap_fee_bps,
            raw_amount_out: raw_out,
            net_amount_out: after_fee,
            lp_fee_amount: lp_fee,
            protocol_fee_amount: protocol_fee,
            partner_fee_amount: partner_fee,
        },
    )
}

/// The sum of four amounts, or `None` where it leaves 64 bits.
fn checked_sum(a: u64, b: u64, c: u64, d: u64) -> (r: Option<u64>)
    ensures
        r == (if a + b + c + d > u64::MAX {
            None
        } else {
            Some((a + b + c + d) as u64)
        }),
{
    match a.checked_add(b) {
        Some(ab) => match ab.checked_add(c) {
            Some(abc) => abc.checked_add(d),
            None => None,
        },
        None => None,
    }
}

/// Reconciliation: in every result that a swap can have, net amount and fees add
/// up to the gross amount exactly, and each fee is its rate's share of the gross
/// amount, rounded down.
pub proof fn lemma_swap_result_reconciles(
    amount_in: u64,
    price_in: u64,
    price_out: u64,
    decimals_in: u8,
    decimals_out: u8,
    vault_in: Vault,
    vault_out: Vault,
    protocol_fee_bps: u64,
    partner_fee_bps: u64,
)
    requires
        compute_swap_math_spec(
            amount_in,
            price_in,
            price_out,
            decimals_in,
            decimals_out,
            vault_in,
            vault_out,
            protocol_fee_bps,
            partner_fee_bps,
        ) is Ok,
    ensures
        ({
            let res = compute_swap_math_spec(
                amount_in,
                price_in,
                price_out,
                decimals_in,
                decimals_out,
                vault_in,
                vault_out,
                protocol_fee_bps,
                partner_fee_bps,
            )->Ok_0;
            &&& res.wf()
            &&& res.total_fee() <= res.raw_amount_out
            &&& res.lp_fee_amount == fee_amount(res.raw_amount_out as int, res.swap_fee_bps as int)
            &&& res.protocol_fee_amount == fee_amount(
                res.raw_amount_out as int,
                protocol_fee_bps as int,
            )
            &&& res.partner_fee_amount == fee_amount(
                res.raw_amount_out as int,
                partner_fee_bps as int,
            )
        }),
{
    let swap_fee_bps = fees_setting_spec(vault_in, vault_out);
    let raw_out = raw_amount_out_spec(
        amount_in,
        decimals_in as u32,
        decimals_out as u32,
        price_in,
        price_out,
    )->Ok_0;
    lemma_fees_within_gross(
        raw_out as int,
        swap_fee_bps as int,
        protocol_fee_bps as int,
        partner_fee_bps as int,
    );
    lemma_fee_amount_bounds(raw_out as int, swap_fee_bps as int);
    lemma_fee_amount_bounds(raw_out as int, protocol_fee_bps as int);
    lemma_fee_amount_bounds(raw_out as int, partner_fee_bps as int);
}

/// The cap on the rates: where the three rates together exceed one whole, no
/// result is produced, whatever the amount and the reserves. The error is
/// `FeesExceedMaximum` exactly when the amount could be priced; where it could
/// not, the pricing error comes first.
pub proof fn lemma_fees_above_cap_always_fail(
    amount_in: u64,
    price_in: u64,
    price_out: u64,
    decimals_in: u8,
    decimals_out: u8,
    vault_in: Vault,
    vault_out: Vault,
    protocol_fee_bps: u64,
    partner_fee_bps: u64,
)
    requires
        fees_setting_spec(vault_in, vault_out) + protocol_fee_bps + partner_fee_bps
            > BPS_DENOMINATOR,
    ensures
        ({
            let r = compute_swap_math_spec(
                amount_in,
                price_in,
                price_out,
                decimals_in,
                decimals_out,
                vault_in,
                vault_out,
                protocol_fee_bps,
                partner_fee_bps,
            );
            &&& r is Err
            &&& raw_amount_out_spec(
                amount_in,
                decimals_in as u32,
                decimals_out as u32,
                price_in,
                price_out,
            ) is Ok <==> r == Err::<SwapMathResult, SwapMathError>(
                SwapMathError::FeesExceedMaximum,
            )
        }),
{
}

/// The reserve check: a swap fails for want of liquidity exactly when it was
/// priced, its rates are within the cap, and the net amount and the three fees
/// together exceed the reserve of the output vault. A reserve that equals that
/// total is enough.
pub proof fn lemma_insufficient_liquidity_iff(
    amount_in: u64,
    price_in: u64,
    price_out: u64,
    decimals_in: u8,
    decimals_out: u8,
    vault_in: Vault,
    vault_out: Vault,
    protocol_fee_bps: u64,
    partner_fee_bps: u64,
)
    ensures
        ({
            let swap_fee_bps = fees_setting_spec(vault_in, vault_out);
            let raw = raw_amount_out_spec(
                amount_in,
                decimals_in as u32,
                decimals_out as u32,
                price_in,
                price_out,
            );
            let r = compute_swap_math_spec(
                amount_in,
                price_in,
                price_out,
                decimals_in,
                decimals_out,
                vault_in,
                vault_out,
                protocol_fee_bps,
                partner_fee_bps,
            );
            let split = swap_result_of(raw->Ok_0, swap_fee_bps, protocol_fee_bps, partner_fee_bps);
            let total_out = split.net_amount_out + split.total_fee();
            let checked = raw is Ok && swap_fee_bps + protocol_fee_bps + partner_fee_bps
                <= BPS_DENOMINATOR;
            &&& r == Err::<SwapMathResult, SwapMathError>(SwapMathError::InsufficientLiquidity)
                <==> checked && total_out > vault_out.current_liquidity
            &&& checked && total_out <= vault_out.current_liquidity ==> r is Ok
        }),
{
    let swap_fee_bps = fees_setting_spec(vault_in, vault_out);
    let raw = raw_amount_out_spec(
        amount_in,
        decimals_in as u32,
        decimals_out as u32,
        price_in,
        price_out,
    );
    if raw is Ok && swap_fee_bps + protocol_fee_bps + partner_fee_bps <= BPS_DENOMINATOR {
        let raw_out = raw->Ok_0;
        lemma_fees_within_gross(
            raw_out as int,
            swap_fee_bps as int,
            protocol_fee_bps as int,
            partner_fee_bps as int,
        );
        lemma_fee_amount_bounds(raw_out as int, swap_fee_bps as int);
        lemma_fee_amount_bounds(raw_out as int, protocol_fee_bps as int);
        lemma_fee_amount_bounds(raw_out as int, partner_fee_bps as int);
    }
}

/// An empty output vault pays nothing out: a swap that is priced above zero, at
/// rates within the cap, fails for want of liquidity.
pub proof fn lemma_empty_vault_refuses(
    amount_in: u64,
    price_in: u64,
    price_out: u64,
    decimals_in: u8,
    decimals_out: u8,
    vault_in: Vault,
    vault_out: Vault,
    protocol_fee_bps: u64,
    partner_fee_bps: u64,
)
    requires
        vault_out.current_liquidity == 0,
        raw_amount_out_spec(
            amount_in,
            decimals_in as u32,
            decimals_out as u32,
            price_in,
            price_out,
        ) matches Ok(raw_out) && raw_out > 0,
        fees_setting_spec(vault_in, vault_out) + protocol_fee_bps + partner_fee_bps
            <= BPS_DENOMINATOR,
    ensures
        compute_swap_math_spec(
            amount_in,
            price_in,
            price_out,
            decimals_in,
            decimals_out,
            vault_in,
            vault_out,
            protocol_fee_bps,
            partner_fee_bps,
        ) == Err::<SwapMathResult, SwapMathError>(SwapMathError::InsufficientLiquidity),
{
}

} // verus!
