use vstd::prelude::*;

verus! {

/// Why an input amount could not be priced.
#[derive(Debug, Clone, Copy, PartialEq, Eq, Structural)]
pub enum PriceError {
    /// An intermediate product, or a power of ten, does not fit in 128 bits.
    ArithmeticOverflow,
    /// The price of the output token is zero.
    InvalidPrice,
    /// The priced amount does not fit in 64 bits.
    OutputOverflow,
}

/// Why a gross amount could not be split into net amount and fees.
#[derive(Debug, Clone, Copy, PartialEq, Eq, Structural)]
pub enum FeeError {
    /// A rate lies above one whole, or the fees together exceed the gross amount.
    FeeCalculationOverflow,
}

/// Why no swap result was produced.
#[derive(Debug, Clone, Copy, PartialEq, Eq, Structural)]
pub enum SwapMathError {
    /// The gross output amount could not be computed.
    PricingFailed(PriceError),
    /// The three fee rates together exceed one whole.
    FeesExceedMaximum,
    /// The gross output amount could not be split. Rates within the cap always
    /// split, so a swap never ends in this error.
    FeeCalculationFailed(FeeError),
    /// Net amount and fees do not add up within 64 bits. They add up to the gross
    /// amount, so a swap never ends in this error.
    AccountingOverflow,
    /// The output vault holds less than the gross output amount.
    InsufficientLiquidity,
    /// A vault, a price, a decimal count or the treasury is not known.
    MissingData,
    /// The treasury's switch is set: no quote is given.
    Stopped,
    /// The vault of the input token or of the output token is not active.
    InactiveVault,
}

/// Why an account could not be read as a token mint.
#[derive(Debug, Clone, Copy, PartialEq, Eq, Structural)]
pub enum MintError {
    /// The token program owns the account, but its data is no initialised mint.
    SplUnpackFailed,
    /// The token program with extensions owns the account, but its data is no
    /// initialised mint of the plain layout.
    Token2022UnpackFailed,
    /// Neither token program owns the account.
    NotATokenMint,
}

/// Why an account could not be read as an oracle price.
#[derive(Debug, Clone, Copy, PartialEq, Eq, Structural)]
pub enum OracleError {
    /// The account's data is no price update.
    ParseFailed,
}

} // verus!
