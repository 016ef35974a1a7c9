use std::collections::HashMap;

use solana_tx_decoding::analyze::build_balance_table;
use solana_tx_decoding::analyze::build_mint_table;
use solana_tx_decoding::bytes::bytes_match;
use solana_tx_decoding::bytes::lexicographically_less;
use solana_tx_decoding::bytes::read_address;
use solana_tx_decoding::bytes::read_bool;
use solana_tx_decoding::bytes::read_i64_le;
use solana_tx_decoding::bytes::read_u16_le;
use solana_tx_decoding::bytes::read_u32_le;
use solana_tx_decoding::bytes::read_u64_le;
use solana_tx_decoding::constants;
use solana_tx_decoding::decode::common::quote_balances;
use solana_tx_decoding::decode::common::settle;
use solana_tx_decoding::decode::pumpfun_event::derive_bonding_curve;
use solana_tx_decoding::math::difference;
use solana_tx_decoding::math::fee_fraction;
use solana_tx_decoding::math::price;
use solana_tx_decoding::math::sum;
use solana_tx_decoding::metadata::MetadataFields;
use solana_tx_decoding::tables::credit;
use solana_tx_decoding::tables::debit;
use solana_tx_decoding::tables::lookup_fee;
use solana_tx_decoding::token_metadata;
use solana_tx_decoding::Address;
use solana_tx_decoding::DecodeError;
use solana_tx_decoding::FeeConfigEntry;
use solana_tx_decoding::Signers;
use solana_tx_decoding::TokenBalance;
use solana_tx_decoding::TokenMint;

fn key(tag: u8) -> Address {
    let mut bytes = [0u8; 32];
    bytes[0] = 130;
    bytes[31] = tag;
    Address { bytes }
}

#[test]
fn integers_are_read_least_significant_byte_first() {
    let data: Vec<u8> = (1u8..=20).collect();
    assert_eq!(read_u16_le(&data, 0), 0x0201);
    assert_eq!(read_u32_le(&data, 1), 0x0504_0302);
    assert_eq!(read_u64_le(&data, 2), 0x0a09_0807_0605_0403);
    assert_eq!(read_u64_le(&data, 12), u64::from_le_bytes([13, 14, 15, 16, 17, 18, 19, 20]));
    assert_eq!(read_u64_le(&[0xff; 8], 0), u64::MAX);
    assert_eq!(read_i64_le(&[0xff; 8], 0), -1);
    assert_eq!(read_i64_le(&i64::MIN.to_le_bytes(), 0), i64::MIN);
    assert_eq!(read_i64_le(&i64::MAX.to_le_bytes(), 0), i64::MAX);
    assert_eq!(read_i64_le(&(-1_234_567i64).to_le_bytes(), 0), -1_234_567);
    assert_eq!(read_bool(&[0, 1, 2], 0), Some(false));
    assert_eq!(read_bool(&[0, 1, 2], 1), Some(true));
    assert_eq!(read_bool(&[0, 1, 2], 2), None);
    let mut long = vec![9u8; 3];
    long.extend_from_slice(&key(4).bytes);
    assert_eq!(read_address(&long, 3).bytes, key(4).bytes);
}

#[test]
fn bytes_are_matched_where_they_stand() {
    assert!(bytes_match(&[1, 2, 3, 4], 1, &[2, 3]));
    assert!(bytes_match(&[1, 2, 3, 4], 0, &[]));
    assert!(bytes_match(&[1, 2, 3, 4], 4, &[]));
    assert!(!bytes_match(&[1, 2, 3, 4], 5, &[]));
    assert!(!bytes_match(&[1, 2, 3, 4], 1, &[2, 4]));
    assert!(!bytes_match(&[1, 2, 3, 4], 3, &[4, 5]));
    assert!(!bytes_match(&[1, 2], usize::MAX, &[1]));
}

#[test]
fn byte_strings_are_ordered_lexicographically() {
    assert!(lexicographically_less(b"abc", b"abd"));
    assert!(lexicographically_less(b"ab", b"abc"));
    assert!(lexicographically_less(b"", b"a"));
    assert!(lexicographically_less(b"2zzz", b"z"));
    assert!(!lexicographically_less(b"abc", b"abc"));
    assert!(!lexicographically_less(b"abd", b"abc"));
    assert!(!lexicographically_less(b"abc", b"ab"));
    assert!(!lexicographically_less(b"", b""));
    for (a, b) in [("So1", "So2"), ("9", "A"), ("Z", "a"), ("zz", "z1"), ("1", "11")] {
        assert_eq!(lexicographically_less(a.as_bytes(), b.as_bytes()), a < b);
        assert_eq!(lexicographically_less(b.as_bytes(), a.as_bytes()), b < a);
    }
}

#[test]
fn addresses_are_compared_by_their_bytes() {
    assert!(key(1).same(&key(1)));
    assert!(!key(1).same(&key(2)));
    let mut other = key(1);
    other.bytes[0] = 0;
    assert!(!key(1).same(&other));
}

#[test]
fn prices_are_scaled_and_rounded_down() {
    assert_eq!(price(1, 3), Ok(333_333_333));
    assert_eq!(price(3, 1), Ok(3_000_000_000));
    assert_eq!(price(0, 5), Ok(0));
    assert_eq!(price(u64::MAX, 1), Ok(u64::MAX as u128 * 1_000_000_000));
    assert!(matches!(price(5, 0), Err(DecodeError::ArithmeticDivisionByZero)));
}

#[test]
fn prices_are_reciprocal_within_one_unit() {
    for (a, b) in [(11_000_000u64, 18_000_000u64), (1, 3), (7, 7), (u64::MAX, 3), (3, u64::MAX)] {
        let quote = quote_balances(a, b).unwrap();
        let scale = constants::SCALE;
        assert!(quote.price_a_b * (b as u128) <= (a as u128) * scale);
        assert!((a as u128) * scale < (quote.price_a_b + 1) * (b as u128));
        assert!(quote.price_b_a * (a as u128) <= (b as u128) * scale);
        assert!((b as u128) * scale < (quote.price_b_a + 1) * (a as u128));
    }
    assert!(matches!(quote_balances(0, 5), Err(DecodeError::ArithmeticDivisionByZero)));
    assert!(matches!(quote_balances(5, 0), Err(DecodeError::ArithmeticDivisionByZero)));
}

#[test]
fn fee_fractions_are_scaled_and_rounded_down() {
    assert_eq!(fee_fraction(25, 10_000), Ok(2_500_000));
    assert_eq!(fee_fraction(1, 3), Ok(333_333_333));
    assert_eq!(fee_fraction(7, 7), Ok(1_000_000_000));
    assert_eq!(fee_fraction(0, 7), Ok(0));
    assert!(matches!(fee_fraction(1, 0), Err(DecodeError::ArithmeticDivisionByZero)));
    assert!(matches!(
        fee_fraction(u64::MAX as u128, 1),
        Err(DecodeError::ArithmeticOverflow)
    ));
    assert_eq!(fee_fraction(18_446_744_073, 1), Ok(18_446_744_073_000_000_000));
    assert!(matches!(fee_fraction(18_446_744_074, 1), Err(DecodeError::ArithmeticOverflow)));
}

#[test]
fn amounts_are_added_and_subtracted_within_their_range() {
    assert_eq!(sum(2, 3), Ok(5));
    assert_eq!(sum(u64::MAX, 0), Ok(u64::MAX));
    assert!(matches!(sum(u64::MAX, 1), Err(DecodeError::ArithmeticOverflow)));
    assert_eq!(difference(5, 3), Ok(2));
    assert_eq!(difference(3, 3), Ok(0));
    assert!(matches!(difference(3, 5), Err(DecodeError::ArithmeticOverflow)));
}

#[test]
fn balances_change_only_for_accounts_that_the_table_holds() {
    let mut table = HashMap::from([(1u8, 100u64), (2u8, 50u64)]);
    assert!(credit(&mut table, 1, 11).is_ok());
    assert!(credit(&mut table, 9, 11).is_ok());
    assert!(debit(&mut table, 2, 20).is_ok());
    assert!(debit(&mut table, 9, 20).is_ok());
    assert_eq!(table, HashMap::from([(1u8, 111u64), (2u8, 30u64)]));
    assert!(matches!(debit(&mut table, 2, 31), Err(DecodeError::ArithmeticOverflow)));
    assert!(matches!(credit(&mut table, 1, u64::MAX), Err(DecodeError::ArithmeticOverflow)));
    assert_eq!(table, HashMap::from([(1u8, 111u64), (2u8, 30u64)]));
    assert!(settle(&mut table, 1, 9, 2, 30).is_ok());
    assert_eq!(table, HashMap::from([(1u8, 120u64), (2u8, 0u64)]));
    assert!(matches!(settle(&mut table, 1, 1, 2, 1), Err(DecodeError::ArithmeticOverflow)));
    assert_eq!(table, HashMap::from([(1u8, 121u64), (2u8, 0u64)]));
}

#[test]
fn fee_configuration_gives_the_first_entry_of_an_account() {
    let entries = vec![
        FeeConfigEntry { account: key(1), fee_fraction: 100 },
        FeeConfigEntry { account: key(2), fee_fraction: 200 },
        FeeConfigEntry { account: key(1), fee_fraction: 300 },
    ];
    assert_eq!(lookup_fee(&entries, &key(1)), Some(100));
    assert_eq!(lookup_fee(&entries, &key(2)), Some(200));
    assert_eq!(lookup_fee(&entries, &key(3)), None);
    assert_eq!(lookup_fee(&Vec::new(), &key(1)), None);
}

#[test]
fn tables_are_built_from_the_balance_records() {
    let pre = vec![
        TokenBalance { account_index: 3, mint: key(30), amount: 300 },
        TokenBalance { account_index: 4, mint: key(40), amount: 400 },
        TokenBalance { account_index: 3, mint: key(31), amount: 301 },
    ];
    let post = vec![
        TokenMint { account_index: 4, mint: key(41) },
        TokenMint { account_index: 5, mint: key(50) },
    ];
    let mints = build_mint_table(&pre, &post);
    assert_eq!(mints.len(), 3);
    assert_eq!(mints[&3].bytes, key(31).bytes);
    assert_eq!(mints[&4].bytes, key(41).bytes);
    assert_eq!(mints[&5].bytes, key(50).bytes);
    let balances = build_balance_table(&pre);
    assert_eq!(balances, HashMap::from([(3u8, 301u64), (4u8, 400u64)]));
}

#[test]
fn bonding_curve_address_is_derived_from_the_mint() {
    let mint = key(77);
    let program = solana_sdk::pubkey::Pubkey::new_from_array(constants::PUMP_BONDING_CURVE_PROGRAM);
    let seeds: [&[u8]; 2] = [b"bonding-curve", &mint.bytes];
    let expected = solana_sdk::pubkey::Pubkey::find_program_address(&seeds, &program).0;
    let derived = derive_bonding_curve(&mint).unwrap();
    assert_eq!(derived.bytes, expected.to_bytes());
    let again = derive_bonding_curve(&mint).unwrap();
    assert_eq!(derived.bytes, again.bytes);
    let other = derive_bonding_curve(&key(78)).unwrap();
    assert_ne!(derived.bytes, other.bytes);
}

#[test]
fn program_addresses_are_those_of_the_protocols() {
    let cases: [(&[u8; 32], &str); 7] = [
        (&constants::RAYDIUM_AMM_PROGRAM, "675kPX9MHTjS2zt1qfr1NYHuzeLXfQM9H24wFSUt1Mp8"),
        (&constants::RAYDIUM_CPMM_PROGRAM, "CPMMoo8L3F4NbTegBCKVNunggL7H1ZpdTHKxQB5qKP1C"),
        (&constants::RAYDIUM_LAUNCHPAD_PROGRAM, "LanMV9sAd7wArD4vJFi2qDdfnVhFxYSUg6eADduJ3uj"),
        (&constants::PUMP_BONDING_CURVE_PROGRAM, "6EF8rrecthR5Dkzon8Nwu78hRvfCKubJ14M5uBEwF6P"),
        (
            &constants::PUMP_BONDING_CURVE_EVENT_AUTHORITY,
            "Ce6TQqeHC9p8KetsN6JsjHK7UTZk7nasjjnr7XxXp9F1",
        ),
        (&constants::PUMP_SWAP_PROGRAM, "pAMMBay6oceH9fJKBRHGP5D4bD4sWpmSwMn52FMfXEA"),
        (&constants::WSOL_MINT, "So11111111111111111111111111111111111111112"),
    ];
    for (bytes, text) in cases {
        assert_eq!(bs58::encode(bytes).into_string(), text);
    }
}

#[test]
fn absent_metadata_is_empty() {
    let fields = MetadataFields {
        description: Some("A coin".to_string()),
        twitter: None,
        website: Some(String::new()),
    };
    assert_eq!(
        token_metadata(fields),
        ("A coin".to_string(), String::new(), String::new())
    );
    let nothing = MetadataFields { description: None, twitter: None, website: None };
    assert_eq!(token_metadata(nothing), (String::new(), String::new(), String::new()));
    let all = MetadataFields {
        description: Some("d".to_string()),
        twitter: Some("t".to_string()),
        website: Some("w".to_string()),
    };
    assert_eq!(token_metadata(all), ("d".to_string(), "t".to_string(), "w".to_string()));
}

#[test]
fn signers_hold_each_address_once() {
    let signers = Signers::from_addresses(&[key(3), key(1), key(3), key(2), key(1), key(3)]);
    assert_eq!(signers.addresses(), &vec![key(3), key(1), key(2)]);
    assert!(signers.contains(&key(1)));
    assert!(!signers.contains(&key(4)));
    assert_eq!(signers.copy().addresses(), signers.addresses());
    assert_eq!(signers.clone().addresses(), signers.addresses());
    assert!(Signers::new().addresses().is_empty());
    assert!(Signers::from_addresses(&[]).addresses().is_empty());
    let distinct = [key(9), key(8), key(7)];
    assert_eq!(Signers::from_addresses(&distinct).addresses(), &distinct.to_vec());
}
