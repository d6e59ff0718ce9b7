use farm_fund::keys::keys_equal;
use farm_fund::native_mint::{check_id, id, DECIMALS, ID};
use solana_program::pubkey::Pubkey;
use std::str::FromStr;

#[test]
fn native_mint_decimals_are_nine() {
    assert_eq!(DECIMALS, 9);
}

#[test]
fn native_mint_id_matches_its_base58_address() {
    let expected = Pubkey::from_str("So11111111111111111111111111111111111111112").unwrap();
    assert_eq!(id(), expected.to_bytes());
    assert_eq!(ID, expected.to_bytes());
}

#[test]
fn check_id_accepts_only_the_native_mint() {
    assert!(check_id(&id()));
    let mut other = id();
    other[31] = 2;
    assert!(!check_id(&other));
    assert!(!check_id(&[0u8; 32]));
}

#[test]
fn keys_equal_compares_every_byte() {
    let a = [7u8; 32];
    let mut b = [7u8; 32];
    assert!(keys_equal(&a, &b));
    b[0] = 8;
    assert!(!keys_equal(&a, &b));
    b[0] = 7;
    b[31] = 0;
    assert!(!keys_equal(&a, &b));
}
