use crate::error::PriceError;
use crate::utils::pow10::{checked_pow10, lemma_pow10_grows, pow10};
use crate::utils::{PRICE_SCALE, SCALE};
use vstd::arithmetic::div_mod::{lemma_div_is_ordered, lemma_div_pos_is_pos};
use vstd::arithmetic::mul::{lemma_mul_inequality, lemma_mul_nonnegative};
use vstd::prelude::*;

verus! {

/// The input amount in the internal fixed-point unit, whatever the token's precision.
pub open spec fn amount_fp(amount_in: int, decimals_in: nat) -> int {
    amount_in * SCALE / pow10(decimals_in)
}

/// The value of the input amount, in the internal fixed-point unit.
pub open spec fn usd_fp(amount_in: int, decimals_in: nat, price_in: int) -> int {
    amount_fp(amount_in, decimals_in) * price_in / (PRICE_SCALE as int)
}

/// The output amount in the internal fixed-point unit.
pub open spec fn out_fp(amount_in: int, decimals_in: nat, price_in: int, price_out: int) -> int {
    usd_fp(amount_in, decimals_in, price_in) * PRICE_SCALE / price_out
}

/// The output amount in the smallest units of the output token. Each of the four
/// divisions rounds down, and none happens before its product has been formed.
pub open spec fn out_amount(
    amount_in: int,
    decimals_in: nat,
    decimals_out: nat,
    price_in: int,
    price_out: int,
) -> int {
    out_fp(amount_in, decimals_in, price_in, price_out) * pow10(decimals_out) / (SCALE as int)
}

/// Whether a power of ten or a product formed on the way to `out_amount` leaves 128 bits.
pub open spec fn pricing_overflows(
    amount_in: int,
    decimals_in: nat,
    decimals_out: nat,
    price_in: int,
    price_out: int,
) -> bool {
    ||| pow10(decimals_in) > u128::MAX
    ||| pow10(decimals_out) > u128::MAX
    ||| amount_in * SCALE > u128::MAX
    ||| amount_fp(amount_in, decimals_in) * price_in > u128::MAX
    ||| usd_fp(amount_in, decimals_in, price_in) * PRICE_SCALE > u128::MAX
    ||| out_fp(amount_in, decimals_in, price_in, price_out) * pow10(decimals_out) > u128::MAX
}

/// What `raw_amount_out` returns: a zero output price is refused first, then any
/// overflow of the 128-bit steps, then a result beyond 64 bits.
pub open spec fn raw_amount_out_spec(
    amount_in: u64,
    decimals_in: u32,
    decimals_out: u32,
    price_in: u64,
    price_out: u64,
) -> Result<u64, PriceError> {
    let out = out_amount(
        amount_in as int,
        decimals_in as nat,
        decimals_out as nat,
        price_in as int,
        price_out as int,
    );
    if price_out == 0 {
        Err(PriceError::InvalidPrice)
    } else if pricing_overflows(
        amount_in as int,
        decimals_in as nat,
        decimals_out as nat,
        price_in as int,
        price_out as int,
    ) {
        Err(PriceError::ArithmeticOverflow)
    } else if out > u64::MAX {
        Err(PriceError::OutputOverflow)
    } else {
        Ok(out as u64)
    }
}

/// `x * m / d`, or `None` where the product leaves 128 bits.
fn checked_mul_div(x: u128, m: u128, d: u128) -> (r: Option<u128>)
    requires
        d > 0,
    ensures
        r == (if x * m > u128::MAX {
            None
        } else {
            Some((x * m / (d as int)) as u128)
        }),
{
    match x.checked_mul(m) {
        Some(product) => Some(product / d),
        None => None,
    }
}

/// Prices `amount_in` of the input token in the output token, both in smallest
/// units, from the two oracle prices and the two decimal counts.
pub fn raw_amount_out(
    amount_in: u64,
    decimals_in: u32,
    decimals_out: u32,
    price_in: u64,
    price_out: u64,
) -> (r: Result<u64, PriceError>)
    ensures
        r == raw_amount_out_spec(amount_in, decimals_in, decimals_out, price_in, price_out),
        price_out == 0 ==> r == Err::<u64, PriceError>(PriceError::InvalidPrice),
{
    if price_out == 0 {
        return Err(PriceError::InvalidPrice);
    }
    let unit_in = match checked_pow10(decimals_in) {
        Some(unit) => unit,
        None => {
            return Err(PriceError::ArithmeticOverflow);
        },
    };
    let unit_out = match checked_pow10(decimals_out) {
        Some(unit) => unit,
        None => {
            return Err(PriceError::ArithmeticOverflow);
        },
    };
    proof {
        lemma_pow10_grows(0, decimals_in as nat);
        lemma_pow10_grows(0, decimals_out as nat);
    }
    let amount = match checked_mul_div(amount_in as u128, SCALE, unit_in) {
        Some(v) => v,
        None => {
            return Err(PriceError::ArithmeticOverflow);
        },
    };
    let usd = match checked_mul_div(amount, price_in as u128, PRICE_SCALE) {
        Some(v) => v,
        None => {
            return Err(PriceError::ArithmeticOverflow);
        },
    };
    let out_scaled = match checked_mul_div(usd, PRICE_SCALE, price_out as u128) {
        Some(v) => v,
        None => {
            return Err(PriceError::ArithmeticOverflow);
        },
    };
    let out = match checked_mul_div(out_scaled, unit_out, SCALE) {
        Some(v) => v,
        None => {
            return Err(PriceError::ArithmeticOverflow);
        },
    };
    if out > u64::MAX as u128 {
        Err(PriceError::OutputOverflow)
    } else {
        Ok(out as u64)
    }
}

/// Multiplying by `m` and then dividing by `d`, rounding down, keeps the order.
proof fn lemma_mul_div_monotonic(x: int, y: int, m: int, d: int)
    requires
        0 <= x <= y,
        0 <= m,
        0 < d,
    ensures
        0 <= x * m <= y * m,
        0 <= x * m / d <= y * m / d,
{
    lemma_mul_nonnegative(x, m);
    lemma_mul_inequality(x, y, m);
    lemma_div_pos_is_pos(x * m, d);
    lemma_div_is_ordered(x * m, y * m, d);
}

/// Every step of the pricing keeps the order of two input amounts, so the larger
/// one has the larger result, and overflows wherever the smaller one does.
pub proof fn lemma_out_amount_monotonic(
    a1: int,
    a2: int,
    decimals_in: nat,
    decimals_out: nat,
    price_in: int,
    price_out: int,
)
    requires
        0 <= a1 <= a2,
        0 <= price_in,
        0 < price_out,
    ensures
        0 <= out_amount(a1, decimals_in, decimals_out, price_in, price_out) <= out_amount(
            a2,
            decimals_in,
            decimals_out,
            price_in,
            price_out,
        ),
        pricing_overflows(a1, decimals_in, decimals_out, price_in, price_out)
            ==> pricing_overflows(a2, decimals_in, decimals_out, price_in, price_out),
{
    lemma_pow10_grows(0, decimals_in);
    lemma_pow10_grows(0, decimals_out);
    lemma_mul_div_monotonic(a1, a2, SCALE as int, pow10(decimals_in));
    lemma_mul_div_monotonic(
        amount_fp(a1, decimals_in),
        amount_fp(a2, decimals_in),
        price_in,
        PRICE_SCALE as int,
    );
    lemma_mul_div_monotonic(
        usd_fp(a1, decimals_in, price_in),
        usd_fp(a2, decimals_in, price_in),
        PRICE_SCALE as int,
        price_out,
    );
    lemma_mul_div_monotonic(
        out_fp(a1, decimals_in, price_in, price_out),
        out_fp(a2, decimals_in, price_in, price_out),
        pow10(decimals_out),
        SCALE as int,
    );
}

/// Monotonicity: with prices and decimal counts held fixed, a larger input amount
/// is never priced lower than a smaller one, wherever both are priced at all.
pub proof fn lemma_raw_amount_out_monotonic(
    amount_low: u64,
    amount_high: u64,
    decimals_in: u32,
    decimals_out: u32,
    price_in: u64,
    price_out: u64,
)
    requires
        amount_low <= amount_high,
        raw_amount_out_spec(amount_low, decimals_in, decimals_out, price_in, price_out) is Ok,
        raw_amount_out_spec(amount_high, decimals_in, decimals_out, price_in, price_out) is Ok,
    ensures
        raw_amount_out_spec(amount_low, decimals_in, decimals_out, price_in, price_out)->Ok_0
            <= raw_amount_out_spec(
            amount_high,
            decimals_in,
            decimals_out,
            price_in,
            price_out,
        )->Ok_0,
{
    lemma_out_amount_monotonic(
        amount_low as int,
        amount_high as int,
        decimals_in as nat,
        decimals_out as nat,
        price_in as int,
        price_out as int,
    );
}

/// Where an input amount is priced, so is every smaller one: neither an overflow
/// nor a result beyond 64 bits can appear by lowering the input.
pub proof fn lemma_raw_amount_out_smaller_is_priced(
    amount_low: u64,
    amount_high: u64,
    decimals_in: u32,
    decimals_out: u32,
    price_in: u64,
    price_out: u64,
)
    requires
        amount_low <= amount_high,
        raw_amount_out_spec(amount_high, decimals_in, decimals_out, price_in, price_out) is Ok,
    ensures
        raw_amount_out_spec(amount_low, decimals_in, decimals_out, price_in, price_out) is Ok,
{
    lemma_out_amount_monotonic(
        amount_low as int,
        amount_high as int,
        decimals_in as nat,
        decimals_out as nat,
        price_in as int,
        price_out as int,
    );
}

} // verus!
