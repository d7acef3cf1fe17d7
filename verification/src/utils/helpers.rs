use crate::bindings::{
    le_i64, le_u64, packed_mint_decimals, pyth_price, read_pyth_price, unpack_spl_mint_decimals,
    unpack_token_2022_mint_decimals,
};
use crate::error::{MintError, OracleError};
use crate::states::account::Account;
use crate::states::pubkey::Pubkey;
use crate::utils::addresses::{TOKEN_2022_PROGRAM_ID, TOKEN_PROGRAM_ID};
use vstd::prelude::*;

verus! {

/// What `parse_mint_decimals` returns for an account owned by `owner` that stores
/// `data`: its owner decides which of the two token programs reads the data.
pub open spec fn parse_mint_decimals_spec(owner: Pubkey, data: Seq<u8>) -> Result<u8, MintError> {
    if owner.bytes == TOKEN_PROGRAM_ID {
        match packed_mint_decimals(data) {
            Some(decimals) => Ok(decimals),
            None => Err(MintError::SplUnpackFailed),
        }
    } else if owner.bytes == TOKEN_2022_PROGRAM_ID {
        match packed_mint_decimals(data) {
            Some(decimals) => Ok(decimals),
            None => Err(MintError::Token2022UnpackFailed),
        }
    } else {
        Err(MintError::NotATokenMint)
    }
}

/// The decimal count of the token whose mint `account` is.
pub fn parse_mint_decimals(account: &Account) -> (r: Result<u8, MintError>)
    ensures
        r == parse_mint_decimals_spec(account.owner, account.data@),
{
    if account.owner == Pubkey::new_from_array(TOKEN_PROGRAM_ID) {
        match unpack_spl_mint_decimals(account.data.as_slice()) {
            Ok(decimals) => Ok(decimals),
            Err(_) => Err(MintError::SplUnpackFailed),
        }
    } else if account.owner == Pubkey::new_from_array(TOKEN_2022_PROGRAM_ID) {
        match unpack_token_2022_mint_decimals(account.data.as_slice()) {
            Ok(decimals) => Ok(decimals),
            Err(_) => Err(MintError::Token2022UnpackFailed),
        }
    } else {
        Err(MintError::NotATokenMint)
    }
}

/// The unsigned price that stands for an oracle's signed reading: the reading
/// itself, and for a reading below zero the reading plus two to the 64th.
pub open spec fn price_of_reading(reading: i64) -> u64 {
    if reading >= 0 {
        reading as u64
    } else {
        (reading + 0x1_0000_0000_0000_0000) as u64
    }
}

/// Turns an oracle's signed reading into the unsigned price that the swap math takes.
pub fn price_from_reading(reading: i64) -> (price: u64)
    ensures
        price == price_of_reading(reading),
{
    if reading >= 0 {
        reading as u64
    } else {
        u64::MAX - ((-(reading + 1)) as u64)
    }
}

/// What `parse_pyth_price` returns for an account that stores `data`.
pub open spec fn parse_pyth_price_spec(data: Seq<u8>) -> Result<u64, OracleError> {
    match pyth_price(data) {
        Some(reading) => Ok(price_of_reading(reading)),
        None => Err(OracleError::ParseFailed),
    }
}

/// The price that the oracle account `acc` reports.
pub fn parse_pyth_price(acc: &Account) -> (r: Result<u64, OracleError>)
    ensures
        r == parse_pyth_price_spec(acc.data@),
{
    match read_pyth_price(acc.data.as_slice()) {
        Ok(reading) => Ok(price_from_reading(reading)),
        Err(_) => Err(OracleError::ParseFailed),
    }
}

/// The price of a price update is the unsigned number that its eight price bytes
/// stand for, the lowest byte first: reading them as a signed number and taking
/// that modulo two to the 64th gives the same.
pub proof fn lemma_parsed_price_is_unsigned(data: Seq<u8>)
    requires
        pyth_price(data) is Some,
    ensures
        parse_pyth_price_spec(data) == Ok::<u64, OracleError>(
            le_u64(data, if data[32] == 1 { 65int } else { 66int }) as u64,
        ),
{
    let at = if data[32] == 1 { 65int } else { 66int };
    assert(0 <= le_u64(data, at) < 0x1_0000_0000_0000_0000);
    assert(pyth_price(data) == Some(le_i64(data, at)));
}

} // verus!
