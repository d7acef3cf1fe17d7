use jupiter_core::error::{MintError, OracleError};
use jupiter_core::states::{Account, Pubkey};
use jupiter_core::utils::addresses::{TOKEN_2022_PROGRAM_ID, TOKEN_PROGRAM_ID};
use jupiter_core::utils::helpers::{parse_mint_decimals, parse_pyth_price, price_from_reading};
use solana_sdk::program_pack::Pack;

fn account(owner: [u8; 32], data: Vec<u8>) -> Account {
    Account {
        lamports: 1,
        data,
        owner: Pubkey::new_from_array(owner),
        executable: false,
        rent_epoch: 0,
    }
}

/// The bytes of a mint without authorities.
fn mint_bytes(supply: u64, decimals: u8, initialized: u8) -> Vec<u8> {
    let mut data = vec![0u8; 36];
    data.extend_from_slice(&supply.to_le_bytes());
    data.push(decimals);
    data.push(initialized);
    data.extend_from_slice(&[0u8; 36]);
    data
}

/// The bytes of a fully verified price update.
fn price_update_bytes(price: i64) -> Vec<u8> {
    let mut data = vec![3u8; 32];
    data.push(1);
    data.extend_from_slice(&[5u8; 32]);
    data.extend_from_slice(&price.to_le_bytes());
    data.extend_from_slice(&17u64.to_le_bytes());
    data.extend_from_slice(&(-8i32).to_le_bytes());
    data.extend_from_slice(&1_700_000_000i64.to_le_bytes());
    data.extend_from_slice(&1_699_999_999i64.to_le_bytes());
    data.extend_from_slice(&price.to_le_bytes());
    data.extend_from_slice(&19u64.to_le_bytes());
    data.extend_from_slice(&123_456u64.to_le_bytes());
    data
}

#[test]
fn decimals_of_a_token_program_mint() {
    let mint = account(TOKEN_PROGRAM_ID, mint_bytes(1_000, 9, 1));
    assert_eq!(parse_mint_decimals(&mint), Ok(9));
    let mint = account(TOKEN_PROGRAM_ID, mint_bytes(5, 6, 1));
    assert_eq!(parse_mint_decimals(&mint), Ok(6));
    let mint = account(TOKEN_PROGRAM_ID, mint_bytes(0, 0, 1));
    assert_eq!(parse_mint_decimals(&mint), Ok(0));
}

#[test]
fn decimals_of_a_mint_packed_by_the_token_program() {
    let mint = spl_token::state::Mint {
        mint_authority: None.into(),
        supply: 77,
        decimals: 11,
        is_initialized: true,
        freeze_authority: None.into(),
    };
    let mut data = vec![0u8; 82];
    spl_token::state::Mint::pack(mint, &mut data).unwrap();
    assert_eq!(data, mint_bytes(77, 11, 1));
    assert_eq!(parse_mint_decimals(&account(TOKEN_PROGRAM_ID, data)), Ok(11));
}

#[test]
fn decimals_of_a_token_2022_mint() {
    let mint = account(TOKEN_2022_PROGRAM_ID, mint_bytes(1_000, 8, 1));
    assert_eq!(parse_mint_decimals(&mint), Ok(8));
}

#[test]
fn a_mint_that_is_not_initialised_is_refused() {
    let mint = account(TOKEN_PROGRAM_ID, mint_bytes(1_000, 9, 0));
    assert_eq!(parse_mint_decimals(&mint), Err(MintError::SplUnpackFailed));
    let mint = account(TOKEN_2022_PROGRAM_ID, mint_bytes(1_000, 9, 0));
    assert_eq!(parse_mint_decimals(&mint), Err(MintError::Token2022UnpackFailed));
}

#[test]
fn mint_data_of_the_wrong_length_is_refused() {
    let mut data = mint_bytes(1_000, 9, 1);
    data.push(0);
    assert_eq!(
        parse_mint_decimals(&account(TOKEN_PROGRAM_ID, data.clone())),
        Err(MintError::SplUnpackFailed)
    );
    assert_eq!(
        parse_mint_decimals(&account(TOKEN_2022_PROGRAM_ID, data)),
        Err(MintError::Token2022UnpackFailed)
    );
    assert_eq!(
        parse_mint_decimals(&account(TOKEN_PROGRAM_ID, vec![])),
        Err(MintError::SplUnpackFailed)
    );
}

#[test]
fn an_account_of_another_owner_is_no_mint() {
    let other = account([9; 32], mint_bytes(1_000, 9, 1));
    assert_eq!(parse_mint_decimals(&other), Err(MintError::NotATokenMint));
    let system = account([0; 32], mint_bytes(1_000, 9, 1));
    assert_eq!(parse_mint_decimals(&system), Err(MintError::NotATokenMint));
}

#[test]
fn the_price_of_a_price_update() {
    let oracle = account([4; 32], price_update_bytes(13_500_000_000));
    assert_eq!(parse_pyth_price(&oracle), Ok(13_500_000_000));
    let oracle = account([4; 32], price_update_bytes(100_000_000));
    assert_eq!(parse_pyth_price(&oracle), Ok(100_000_000));
    let oracle = account([4; 32], price_update_bytes(0));
    assert_eq!(parse_pyth_price(&oracle), Ok(0));
}

#[test]
fn a_partially_verified_price_update_is_read_too() {
    let mut data = price_update_bytes(42);
    data[32] = 0;
    data.insert(33, 5);
    assert_eq!(parse_pyth_price(&account([4; 32], data)), Ok(42));
}

#[test]
fn the_owner_of_an_oracle_account_is_not_looked_at() {
    let a = account([1; 32], price_update_bytes(77));
    let b = account(TOKEN_PROGRAM_ID, price_update_bytes(77));
    assert_eq!(parse_pyth_price(&a), parse_pyth_price(&b));
}

#[test]
fn data_that_is_no_price_update_is_refused() {
    assert_eq!(parse_pyth_price(&account([4; 32], vec![])), Err(OracleError::ParseFailed));
    assert_eq!(parse_pyth_price(&account([4; 32], vec![0; 20])), Err(OracleError::ParseFailed));
    let mut long = price_update_bytes(1);
    long.push(0);
    assert_eq!(parse_pyth_price(&account([4; 32], long)), Err(OracleError::ParseFailed));
    let mut bad_level = price_update_bytes(1);
    bad_level[32] = 2;
    assert_eq!(parse_pyth_price(&account([4; 32], bad_level)), Err(OracleError::ParseFailed));
}

#[test]
fn a_reading_below_zero_wraps_as_a_cast_does() {
    let oracle = account([4; 32], price_update_bytes(-1));
    assert_eq!(parse_pyth_price(&oracle), Ok(u64::MAX));
    let oracle = account([4; 32], price_update_bytes(i64::MIN));
    assert_eq!(parse_pyth_price(&oracle), Ok(1u64 << 63));
}

#[test]
fn price_from_reading_keeps_what_is_not_negative() {
    assert_eq!(price_from_reading(0), 0);
    assert_eq!(price_from_reading(1), 1);
    assert_eq!(price_from_reading(13_500_000_000), 13_500_000_000);
    assert_eq!(price_from_reading(i64::MAX), i64::MAX as u64);
}

#[test]
fn price_from_reading_agrees_with_the_cast() {
    for reading in [-1i64, -2, -100_000_000, i64::MIN, i64::MIN + 1, 0, 5, i64::MAX] {
        assert_eq!(price_from_reading(reading), reading as u64);
    }
}

#[test]
fn a_mint_with_authorities_is_read_too() {
    let mut data = mint_bytes(9, 4, 1);
    data[0] = 1;
    data[4..36].copy_from_slice(&[7u8; 32]);
    data[46] = 1;
    data[50..82].copy_from_slice(&[8u8; 32]);
    assert_eq!(parse_mint_decimals(&account(TOKEN_PROGRAM_ID, data.clone())), Ok(4));
    assert_eq!(parse_mint_decimals(&account(TOKEN_2022_PROGRAM_ID, data)), Ok(4));
}

#[test]
fn a_mint_with_a_bad_tag_is_refused() {
    for (at, value) in [(0usize, 2u8), (1, 1), (2, 1), (3, 1), (46, 2), (47, 1), (48, 1), (49, 255)]
    {
        let mut data = mint_bytes(9, 4, 1);
        data[at] = value;
        assert_eq!(
            parse_mint_decimals(&account(TOKEN_PROGRAM_ID, data.clone())),
            Err(MintError::SplUnpackFailed)
        );
        assert_eq!(
            parse_mint_decimals(&account(TOKEN_2022_PROGRAM_ID, data)),
            Err(MintError::Token2022UnpackFailed)
        );
    }
}

#[test]
fn a_mint_whose_initialised_byte_is_not_one_is_refused() {
    for value in [0u8, 2, 255] {
        let data = mint_bytes(9, 4, value);
        assert_eq!(
            parse_mint_decimals(&account(TOKEN_PROGRAM_ID, data.clone())),
            Err(MintError::SplUnpackFailed)
        );
        assert_eq!(
            parse_mint_decimals(&account(TOKEN_2022_PROGRAM_ID, data)),
            Err(MintError::Token2022UnpackFailed)
        );
    }
}

#[test]
fn every_decimal_count_is_read_as_it_stands() {
    for decimals in [0u8, 1, 6, 9, 18, 255] {
        let data = mint_bytes(u64::MAX, decimals, 1);
        assert_eq!(parse_mint_decimals(&account(TOKEN_PROGRAM_ID, data)), Ok(decimals));
    }
}

#[test]
fn the_price_is_read_with_its_lowest_byte_first() {
    let mut data = price_update_bytes(0);
    data[65..73].copy_from_slice(&[8, 7, 6, 5, 4, 3, 2, 1]);
    assert_eq!(parse_pyth_price(&account([4; 32], data)), Ok(0x0102030405060708));
    let mut data = price_update_bytes(0);
    data[65] = 1;
    assert_eq!(parse_pyth_price(&account([4; 32], data)), Ok(1));
    let mut data = price_update_bytes(0);
    data[72] = 0x80;
    assert_eq!(parse_pyth_price(&account([4; 32], data)), Ok(1u64 << 63));
}

#[test]
fn the_price_of_a_partly_verified_update_stands_one_byte_later() {
    let mut data = price_update_bytes(0);
    data[32] = 0;
    data.insert(33, 200);
    data[66..74].copy_from_slice(&[8, 7, 6, 5, 4, 3, 2, 1]);
    assert_eq!(data.len(), 126);
    assert_eq!(parse_pyth_price(&account([4; 32], data)), Ok(0x0102030405060708));
}

#[test]
fn only_the_price_bytes_decide_the_price() {
    let mut data = vec![0xABu8; 125];
    data[32] = 1;
    data[65..73].copy_from_slice(&77u64.to_le_bytes());
    assert_eq!(parse_pyth_price(&account([4; 32], data)), Ok(77));
    let mut data = vec![0u8; 126];
    data[66..74].copy_from_slice(&78u64.to_le_bytes());
    assert_eq!(parse_pyth_price(&account([4; 32], data)), Ok(78));
}

#[test]
fn a_price_update_of_another_length_is_refused() {
    assert_eq!(price_update_bytes(5).len(), 125);
    let mut short = price_update_bytes(5);
    short.pop();
    assert_eq!(parse_pyth_price(&account([4; 32], short)), Err(OracleError::ParseFailed));
    // A fully verified update of 126 bytes, and a partly verified one of 125.
    let mut full = price_update_bytes(5);
    full.push(0);
    assert_eq!(parse_pyth_price(&account([4; 32], full)), Err(OracleError::ParseFailed));
    let mut partial = price_update_bytes(5);
    partial[32] = 0;
    assert_eq!(parse_pyth_price(&account([4; 32], partial.clone())), Err(OracleError::ParseFailed));
    partial.push(0);
    partial.push(0);
    assert_eq!(parse_pyth_price(&account([4; 32], partial)), Err(OracleError::ParseFailed));
}

#[test]
fn a_price_update_with_any_other_tag_is_refused() {
    for tag in [2u8, 3, 127, 255] {
        let mut data = price_update_bytes(5);
        data[32] = tag;
        assert_eq!(
            parse_pyth_price(&account([4; 32], data.clone())),
            Err(OracleError::ParseFailed)
        );
        data.push(0);
        assert_eq!(parse_pyth_price(&account([4; 32], data)), Err(OracleError::ParseFailed));
    }
}
