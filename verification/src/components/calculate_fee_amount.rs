use crate::error::FeeError;
use crate::utils::BPS_DENOMINATOR;
use vstd::arithmetic::div_mod::{lemma_div_is_ordered, lemma_div_pos_is_pos};
use vstd::arithmetic::mul::{
    lemma_mul_inequality, lemma_mul_is_commutative, lemma_mul_is_distributive_add,
    lemma_mul_nonnegative,
};
use vstd::prelude::*;

verus! {

/// The fee that a rate of `bps` basis points takes from `gross`, rounded down.
pub open spec fn fee_amount(gross: int, bps: int) -> int {
    gross * bps / (BPS_DENOMINATOR as int)
}

/// What is left of `gross` after the three fees.
pub open spec fn net_amount(gross: int, lp_fee_bps: int, protocol_fee_bps: int, partner_fee_bps: int) -> int {
    gross - fee_amount(gross, lp_fee_bps) - fee_amount(gross, protocol_fee_bps) - fee_amount(
        gross,
        partner_fee_bps,
    )
}

/// Whether `gross` can be split: no rate lies above one whole, and the net amount
/// is not negative.
pub open spec fn fee_split_is_valid(
    gross: int,
    lp_fee_bps: int,
    protocol_fee_bps: int,
    partner_fee_bps: int,
) -> bool {
    &&& lp_fee_bps <= BPS_DENOMINATOR
    &&& protocol_fee_bps <= BPS_DENOMINATOR
    &&& partner_fee_bps <= BPS_DENOMINATOR
    &&& net_amount(gross, lp_fee_bps, protocol_fee_bps, partner_fee_bps) >= 0
}

/// What `calculate_fee_amount` returns: net amount, liquidity providers' fee,
/// protocol fee and partner fee, in that order.
pub open spec fn calculate_fee_amount_spec(
    gross_amount: u64,
    lp_fee_bps: u64,
    protocol_fee_bps: u64,
    partner_fee_bps: u64,
) -> Result<(u64, u64, u64, u64), FeeError> {
    if fee_split_is_valid(
        gross_amount as int,
        lp_fee_bps as int,
        protocol_fee_bps as int,
        partner_fee_bps as int,
    ) {
        Ok(
            (
                net_amount(
                    gross_amount as int,
                    lp_fee_bps as int,
                    protocol_fee_bps as int,
                    partner_fee_bps as int,
                ) as u64,
                fee_amount(gross_amount as int, lp_fee_bps as int) as u64,
                fee_amount(gross_amount as int, protocol_fee_bps as int) as u64,
                fee_amount(gross_amount as int, partner_fee_bps as int) as u64,
            ),
        )
    } else {
        Err(FeeError::FeeCalculationOverflow)
    }
}

/// A rate of at most one whole takes at most the whole amount.
pub proof fn lemma_fee_amount_bounds(gross: int, bps: int)
    requires
        0 <= gross,
        0 <= bps <= BPS_DENOMINATOR,
    ensures
        0 <= gross * bps <= gross * BPS_DENOMINATOR,
        0 <= fee_amount(gross, bps) <= gross,
{
    lemma_mul_nonnegative(gross, bps);
    lemma_mul_is_commutative(gross, bps);
    lemma_mul_inequality(bps, BPS_DENOMINATOR as int, gross);
    lemma_div_pos_is_pos(gross * bps, BPS_DENOMINATOR as int);
    lemma_div_is_ordered(gross * bps, gross * BPS_DENOMINATOR, BPS_DENOMINATOR as int);
}

/// Rates that together make at most one whole take together at most the whole
/// amount: rounding each fee down can only leave more to the net amount.
pub proof fn lemma_fees_within_gross(
    gross: int,
    lp_fee_bps: int,
    protocol_fee_bps: int,
    partner_fee_bps: int,
)
    requires
        0 <= gross,
        0 <= lp_fee_bps,
        0 <= protocol_fee_bps,
        0 <= partner_fee_bps,
        lp_fee_bps + protocol_fee_bps + partner_fee_bps <= BPS_DENOMINATOR,
    ensures
        fee_split_is_valid(gross, lp_fee_bps, protocol_fee_bps, partner_fee_bps),
{
    let total_bps = lp_fee_bps + protocol_fee_bps + partner_fee_bps;
    lemma_mul_nonnegative(gross, lp_fee_bps);
    lemma_mul_nonnegative(gross, protocol_fee_bps);
    lemma_mul_nonnegative(gross, partner_fee_bps);
    lemma_mul_is_distributive_add(gross, lp_fee_bps + protocol_fee_bps, partner_fee_bps);
    lemma_mul_is_distributive_add(gross, lp_fee_bps, protocol_fee_bps);
    assert(gross * total_bps == gross * lp_fee_bps + gross * protocol_fee_bps + gross
        * partner_fee_bps);
    lemma_mul_is_commutative(gross, total_bps);
    lemma_mul_inequality(total_bps, BPS_DENOMINATOR as int, gross);
    assert(gross * total_bps <= gross * BPS_DENOMINATOR);
}

/// The fee that `bps` basis points take from `gross`.
fn fee_of(gross: u64, bps: u64) -> (fee: u64)
    requires
        bps <= BPS_DENOMINATOR,
    ensures
        fee == fee_amount(gross as int, bps as int),
        fee <= gross,
{
    proof {
        lemma_fee_amount_bounds(gross as int, bps as int);
    }
    let product: u128 = (gross as u128) * (bps as u128);
    (product / (BPS_DENOMINATOR as u128)) as u64
}

/// Splits `gross_amount` into the net amount and the three fees. Each fee is its
/// rate's share of the gross amount, rounded down on its own; what the rounding
/// leaves over stays in the net amount.
pub fn calculate_fee_amount(
    gross_amount: u64,
    lp_fee_bps: u64,
    protocol_fee_bps: u64,
    partner_fee_bps: u64,
) -> (r: Result<(u64, u64, u64, u64), FeeError>)
    ensures
        r == calculate_fee_amount_spec(gross_amount, lp_fee_bps, protocol_fee_bps, partner_fee_bps),
        r matches Ok((net, lp_fee, protocol_fee, partner_fee)) ==> net + lp_fee + protocol_fee
            + partner_fee == gross_amount,
        lp_fee_bps + protocol_fee_bps + partner_fee_bps <= BPS_DENOMINATOR ==> r is Ok,
{
    proof {
        if lp_fee_bps + protocol_fee_bps + partner_fee_bps <= BPS_DENOMINATOR {
            lemma_fees_within_gross(
                gross_amount as int,
                lp_fee_bps as int,
                protocol_fee_bps as int,
                partner_fee_bps as int,
            );
        }
    }
    if lp_fee_bps > BPS_DENOMINATOR || protocol_fee_bps > BPS_DENOMINATOR || partner_fee_bps
        > BPS_DENOMINATOR {
        return Err(FeeError::FeeCalculationOverflow);
    }
    let lp_fee = fee_of(gross_amount, lp_fee_bps);
    let protocol_fee = fee_of(gross_amount, protocol_fee_bps);
    let partner_fee = fee_of(gross_amount, partner_fee_bps);
    let fees: u128 = lp_fee as u128 + protocol_fee as u128 + partner_fee as u128;
    if fees > gross_amount as u128 {
        return Err(FeeError::FeeCalculationOverflow);
    }
    let net = gross_amount - (fees as u64);
    Ok((net, lp_fee, protocol_fee, partner_fee))
}

/// Reconciliation: wherever a gross amount can be split, the net amount and the
/// three fees add up to it exactly, and no part is larger than the whole.
pub proof fn lemma_fee_split_reconciles(
    gross_amount: u64,
    lp_fee_bps: u64,
    protocol_fee_bps: u64,
    partner_fee_bps: u64,
)
    requires
        calculate_fee_amount_spec(gross_amount, lp_fee_bps, protocol_fee_bps, partner_fee_bps)
            is Ok,
    ensures
        ({
            let (net, lp_fee, protocol_fee, partner_fee) = calculate_fee_amount_spec(
                gross_amount,
                lp_fee_bps,
                protocol_fee_bps,
                partner_fee_bps,
            )->Ok_0;
            &&& net + lp_fee + protocol_fee + partner_fee == gross_amount
            &&& net <= gross_amount
            &&& lp_fee <= gross_amount
            &&& protocol_fee <= gross_amount
            &&& partner_fee <= gross_amount
        }),
{
    lemma_fee_amount_bounds(gross_amount as int, lp_fee_bps as int);
    lemma_fee_amount_bounds(gross_amount as int, protocol_fee_bps as int);
    lemma_fee_amount_bounds(gross_amount as int, partner_fee_bps as int);
}

} // verus!
