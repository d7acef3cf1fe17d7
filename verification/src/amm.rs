use crate::states::pubkey::Pubkey;
use vstd::prelude::*;

verus! {

/// Which of the two amounts of a swap is fixed.
#[derive(Debug, Clone, Copy, PartialEq, Eq, Structural)]
pub enum SwapMode {
    ExactIn,
    ExactOut,
}

/// What a quote is asked for.
#[derive(Debug, Clone, Copy)]
pub struct QuoteParams {
    /// The amount given, in smallest units of the input token.
    pub amount: u64,
    /// The token given.
    pub input_mint: Pubkey,
    /// The token received.
    pub output_mint: Pubkey,
    pub swap_mode: SwapMode,
}

/// A decimal number: `mantissa` divided by ten to the power `scale`.
#[derive(Debug, Clone, Copy, PartialEq, Eq, Structural)]
pub struct DecimalParts {
    pub mantissa: i128,
    pub scale: u32,
}

/// A quote: what the trader gives, what the trader receives, and the fees.
#[derive(Debug, Clone, Copy)]
pub struct Quote {
    /// The amount given, in smallest units of the input token.
    pub in_amount: u64,
    /// The amount received after fees, in smallest units of the output token.
    pub out_amount: u64,
    /// The three fees together, in smallest units of the output token.
    pub fee_amount: u64,
    /// The token in which the fees are taken.
    pub fee_mint: Pubkey,
    /// The fees divided by the amount given; none for an amount of zero.
    pub fee_pct: Option<DecimalParts>,
}

/// What a swap instruction is asked for.
#[derive(Debug, Clone, Copy)]
pub struct SwapParams {
    pub swap_mode: SwapMode,
    pub in_amount: u64,
    pub out_amount: u64,
    pub source_mint: Pubkey,
    pub destination_mint: Pubkey,
    pub source_token_account: Pubkey,
    pub destination_token_account: Pubkey,
    /// Who may move the tokens out of the source account.
    pub token_transfer_authority: Pubkey,
    pub jupiter_program_id: Pubkey,
    pub missing_dynamic_accounts_as_default: bool,
}

/// One account of an instruction, and what the instruction may do with it.
#[derive(Debug, Clone, Copy, PartialEq, Eq)]
pub struct AccountMeta {
    pub pubkey: Pubkey,
    pub is_signer: bool,
    pub is_writable: bool,
}

impl View for AccountMeta {
    type V = (Seq<u8>, bool, bool);

    /// The address, whether the account signs, whether it may be changed.
    open spec fn view(&self) -> (Seq<u8>, bool, bool) {
        (self.pubkey@, self.is_signer, self.is_writable)
    }
}

impl AccountMeta {
    /// An account that the instruction may change.
    pub fn new(pubkey: Pubkey, is_signer: bool) -> (meta: AccountMeta)
        ensures
            meta == (AccountMeta { pubkey, is_signer, is_writable: true }),
    {
        AccountMeta { pubkey, is_signer, is_writable: true }
    }

    /// An account that the instruction only reads.
    pub fn new_readonly(pubkey: Pubkey, is_signer: bool) -> (meta: AccountMeta)
        ensures
            meta == (AccountMeta { pubkey, is_signer, is_writable: false }),
    {
        AccountMeta { pubkey, is_signer, is_writable: false }
    }
}

/// The kind of swap that an instruction performs.
#[derive(Debug, Clone, Copy, PartialEq, Eq, Structural)]
pub enum Swap {
    Oxedium,
}

/// A swap and the accounts of its instruction, in the order the program expects.
#[derive(Debug, Clone)]
pub struct SwapAndAccountMetas {
    pub swap: Swap,
    pub account_metas: Vec<AccountMeta>,
}

} // verus!
