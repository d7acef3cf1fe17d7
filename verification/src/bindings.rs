use crate::states::pubkey::Pubkey;
use anchor_lang::AnchorDeserialize;
use solana_sdk::program_pack::Pack;
use vstd::prelude::*;

verus! {

/// The error of the token programs' account readers; nothing is said of what it holds.
#[verifier::external_type_specification]
#[verifier::external_body]
pub struct ExProgramError(solana_sdk::program_error::ProgramError);

/// The error of the byte readers; nothing is said of what it holds.
#[verifier::external_type_specification]
#[verifier::external_body]
pub struct ExIoError(std::io::Error);

/// Whether the four bytes of `data` from `at` on say whether an address follows:
/// zero or one, as 32 bits with the lowest byte first.
pub open spec fn is_option_tag(data: Seq<u8>, at: int) -> bool {
    &&& data[at] == 0 || data[at] == 1
    &&& data[at + 1] == 0
    &&& data[at + 2] == 0
    &&& data[at + 3] == 0
}

/// The decimal count that the data of a mint account holds. A mint is packed
/// into 82 bytes: the mint authority as a tag of four bytes and an address, the
/// supply in eight bytes, the decimal count in one, one byte that is 1 once the
/// mint is initialised, and the freeze authority, packed as the mint authority.
/// Both token programs pack a mint so, and neither reads one that is not
/// initialised.
pub open spec fn packed_mint_decimals(data: Seq<u8>) -> Option<u8> {
    if data.len() == 82 && is_option_tag(data, 0) && data[45] == 1 && is_option_tag(data, 46) {
        Some(data[44])
    } else {
        None
    }
}

/// The number that the eight bytes of `data` from `at` on stand for, the lowest
/// byte first.
pub open spec fn le_u64(data: Seq<u8>, at: int) -> int {
    data[at] + 256 * (data[at + 1] + 256 * (data[at + 2] + 256 * (data[at + 3] + 256 * (data[at
        + 4] + 256 * (data[at + 5] + 256 * (data[at + 6] + 256 * data[at + 7]))))))
}

/// The signed number that the eight bytes of `data` from `at` on stand for, the
/// lowest byte first: from two to the 63rd on, a number below zero.
pub open spec fn le_i64(data: Seq<u8>, at: int) -> i64 {
    if le_u64(data, at) < 0x8000_0000_0000_0000 {
        le_u64(data, at) as i64
    } else {
        (le_u64(data, at) - 0x1_0000_0000_0000_0000) as i64
    }
}

/// The price that the data of a price update account holds. A price update is
/// written as the address of its write authority, one byte for how far it was
/// verified (1 for fully, 0 for partly and then one more byte that counts the
/// signatures), the 32 bytes that name the feed, and the price as a signed number
/// in eight bytes; 52 bytes of other numbers follow, and nothing after them. So
/// a fully verified update has 125 bytes and its price from place 65 on, a
/// partly verified one 126 bytes and its price from place 66 on.
pub open spec fn pyth_price(data: Seq<u8>) -> Option<i64> {
    if data.len() == 125 && data[32] == 1 {
        Some(le_i64(data, 65))
    } else if data.len() == 126 && data[32] == 0 {
        Some(le_i64(data, 66))
    } else {
        None
    }
}

/// The address that `solana_sdk` derives for a program from a list of seeds, with
/// the bump seed it found, if it finds one.
pub uninterp spec fn program_address(seeds: Seq<Seq<u8>>, program_id: Seq<u8>) -> Option<
    (Seq<u8>, u8),
>;

/// Mantissa and scale of the quotient that `rust_decimal` gives for two unsigned
/// integers, if it gives one.
pub uninterp spec fn decimal_quotient(numerator: u64, denominator: u64) -> Option<(i128, u32)>;

/// Calls `spl_token::state::Mint::unpack` and hands out the mint's `decimals`.
/// Trusted: the call succeeds exactly on the 82 bytes of an initialised mint, and
/// the decimal count is the byte at place 44.
#[verifier::external_body]
pub(crate) fn unpack_spl_mint_decimals(data: &[u8]) -> (r: Result<
    u8,
    solana_sdk::program_error::ProgramError,
>)
    ensures
        r matches Ok(decimals) ==> packed_mint_decimals(data@) == Some(decimals),
        r is Err ==> packed_mint_decimals(data@) is None,
{
    match spl_token::state::Mint::unpack(data) {
        Ok(mint) => Ok(mint.decimals),
        Err(e) => Err(e),
    }
}

/// Calls `spl_token_2022::state::Mint::unpack` and hands out the mint's
/// `decimals`. Trusted: the call succeeds exactly on the 82 bytes of an
/// initialised mint, and the decimal count is the byte at place 44.
#[verifier::external_body]
pub(crate) fn unpack_token_2022_mint_decimals(data: &[u8]) -> (r: Result<
    u8,
    solana_sdk::program_error::ProgramError,
>)
    ensures
        r matches Ok(decimals) ==> packed_mint_decimals(data@) == Some(decimals),
        r is Err ==> packed_mint_decimals(data@) is None,
{
    match spl_token_2022::state::Mint::unpack(data) {
        Ok(mint) => Ok(mint.decimals),
        Err(e) => Err(e),
    }
}

/// Calls `PriceUpdateV2::try_from_slice` of `pyth_solana_receiver_sdk` and hands
/// out the `price` of the update's price message. Trusted: the call succeeds
/// exactly on the 125 bytes of a fully verified update and on the 126 bytes of a
/// partly verified one, and the price is read from the eight bytes behind the
/// name of the feed.
#[verifier::external_body]
pub(crate) fn read_pyth_price(data: &[u8]) -> (r: Result<i64, std::io::Error>)
    ensures
        r matches Ok(price) ==> pyth_price(data@) == Some(price),
        r is Err ==> pyth_price(data@) is None,
{
    match pyth_solana_receiver_sdk::price_update::PriceUpdateV2::try_from_slice(data) {
        Ok(update) => Ok(update.price_message.price),
        Err(e) => Err(e),
    }
}

/// Calls `Pubkey::try_find_program_address` of `solana_sdk`. Trusted: the call's
/// outcome depends on the seeds and the program's address alone.
#[verifier::external_body]
pub(crate) fn try_find_program_address(seeds: &Vec<Vec<u8>>, program_id: &Pubkey) -> (r: Option<
    (Pubkey, u8),
>)
    ensures
        r matches Some(found) ==> program_address(seeds.deep_view(), program_id@) == Some(
            (found.0@, found.1),
        ),
        r is None ==> program_address(seeds.deep_view(), program_id@) is None,
{
    let slices: Vec<&[u8]> = seeds.iter().map(|seed| seed.as_slice()).collect();
    let id = solana_sdk::pubkey::Pubkey::new_from_array(program_id.bytes);
    match solana_sdk::pubkey::Pubkey::try_find_program_address(&slices, &id) {
        Some((address, bump)) => Some((Pubkey { bytes: address.to_bytes() }, bump)),
        None => None,
    }
}

/// Calls `Decimal::checked_div` of `rust_decimal` on the decimals of two unsigned
/// integers and hands out the quotient's mantissa and scale. Trusted: the
/// quotient depends on the two integers alone, and there is none for a zero
/// denominator.
#[verifier::external_body]
pub(crate) fn checked_decimal_quotient(numerator: u64, denominator: u64) -> (r: Option<
    (i128, u32),
>)
    ensures
        r == decimal_quotient(numerator, denominator),
        denominator == 0 ==> r is None,
{
    let n = rust_decimal::Decimal::from(numerator);
    let d = rust_decimal::Decimal::from(denominator);
    match n.checked_div(d) {
        Some(quotient) => Some((quotient.mantissa(), quotient.scale())),
        None => None,
    }
}

} // verus!
