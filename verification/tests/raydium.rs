use std::collections::HashMap;

use solana_tx_decoding::decode::raydium_cpmm::decode_raydium_cpmm_swap;
use solana_tx_decoding::decode::raydium_cpmm::CpmmAccounts;
use solana_tx_decoding::process_raydium_ammv4_swap_instruction;
use solana_tx_decoding::process_raydium_cpmm_swap_instruction;
use solana_tx_decoding::process_raydium_launchpad_swap_instruction;
use solana_tx_decoding::Address;
use solana_tx_decoding::DecodeError;
use solana_tx_decoding::FeeConfigEntry;
use solana_tx_decoding::Instruction;
use solana_tx_decoding::LaunchpadTradeEventIdl;
use solana_tx_decoding::Pools;
use solana_tx_decoding::Signature;
use solana_tx_decoding::Signers;
use solana_tx_decoding::SwapDirection;
use solana_tx_decoding::SwapTx;

const SCALE: u128 = 1_000_000_000;

fn key(tag: u8) -> Address {
    let mut bytes = [0u8; 32];
    bytes[0] = 150;
    bytes[31] = tag;
    Address { bytes }
}

fn keys() -> Vec<Address> {
    (0u8..40).map(key).collect()
}

fn transfer_data(amount: u64) -> Vec<u8> {
    let mut data = vec![3u8];
    data.extend_from_slice(&amount.to_le_bytes());
    data
}

fn signature() -> Signature {
    Signature { bytes: [9u8; 64] }
}

struct Transfers {
    first_data: Vec<u8>,
    second_data: Vec<u8>,
    first_accounts: Vec<u8>,
    second_accounts: Vec<u8>,
}

fn transfers(amount_in: u64, destination: u8, amount_out: u64, source: u8) -> Transfers {
    Transfers {
        first_data: transfer_data(amount_in),
        second_data: transfer_data(amount_out),
        first_accounts: vec![30, destination, 31],
        second_accounts: vec![source, 32, 31],
    }
}

fn views<'a>(keys: &'a [Address], t: &'a Transfers) -> Vec<Instruction<'a>> {
    vec![
        Instruction {
            tx_account_keys: keys,
            accounts: &t.first_accounts,
            data: &t.first_data,
            program_id_index: 33,
        },
        Instruction {
            tx_account_keys: keys,
            accounts: &t.second_accounts,
            data: &t.second_data,
            program_id_index: 33,
        },
    ]
}

fn mints() -> HashMap<u8, Address> {
    let mut ta_mint = HashMap::new();
    for vault in 0u8..40 {
        ta_mint.insert(vault, key(100 + vault));
    }
    ta_mint
}

fn ammv4(
    accounts: &[u8],
    t: &Transfers,
    balances: &mut HashMap<u8, u64>,
) -> Result<SwapTx, DecodeError> {
    let keys = keys();
    let data = vec![9u8; 17];
    let swap = Instruction { tx_account_keys: &keys, accounts, data: &data, program_id_index: 39 };
    let companions = views(&keys, t);
    process_raydium_ammv4_swap_instruction(
        &swap,
        &companions,
        &mints(),
        balances,
        11,
        22,
        33,
        4,
        &Signers::from_addresses(&[key(0), key(1)]),
        &signature(),
    )
}

#[test]
fn ammv4_reads_vaults_at_4_and_5_of_17_accounts() {
    let accounts: Vec<u8> = (0u8..17).collect();
    let mut balances = HashMap::from([(4u8, 10_000_000u64), (5u8, 20_000_000u64)]);
    let swap = ammv4(&accounts, &transfers(1_000_000, 4, 2_000_000, 5), &mut balances).unwrap();
    assert_eq!(swap.direction, SwapDirection::AToB);
    assert_eq!(swap.pool_token_a_vault_amount, 11_000_000);
    assert_eq!(swap.pool_token_b_vault_amount, 18_000_000);
    assert_eq!(swap.token_a_address.bytes, key(104).bytes);
    assert_eq!(swap.token_b_address.bytes, key(105).bytes);
    assert_eq!(balances[&4], 11_000_000);
    assert_eq!(balances[&5], 18_000_000);
}

#[test]
fn ammv4_reads_vaults_at_5_and_6_of_18_accounts() {
    let accounts: Vec<u8> = (0u8..18).collect();
    let mut balances = HashMap::from([(5u8, 10_000_000u64), (6u8, 20_000_000u64)]);
    let swap = ammv4(&accounts, &transfers(1_000_000, 5, 2_000_000, 6), &mut balances).unwrap();
    assert_eq!(swap.pool, Pools::RaydiumAmmV4);
    assert_eq!(swap.direction, SwapDirection::AToB);
    assert_eq!(swap.swapped_amount_in, 1_000_000);
    assert_eq!(swap.swapped_amount_received, 2_000_000);
    assert_eq!(swap.pool_token_a_vault_amount, 11_000_000);
    assert_eq!(swap.pool_token_b_vault_amount, 18_000_000);
    assert_eq!(swap.fee_fraction_lp, 2_500_000);
    assert_eq!(swap.price_a_b_lp, 611_111_111);
    assert_eq!(swap.price_b_a_lp, 1_636_363_636);
    assert_eq!(swap.token_a_address.bytes, key(105).bytes);
    assert_eq!(swap.token_b_address.bytes, key(106).bytes);
    assert_eq!(swap.market_address.bytes, key(1).bytes);
    assert_eq!((swap.block_time, swap.slot, swap.index), (11, 22, 33));
    assert_eq!(swap.atomic_instruction_index, 4);
    assert_eq!(swap.signature.bytes, [9u8; 64]);
    assert_eq!(swap.signers.addresses(), &vec![key(0), key(1)]);
}

#[test]
fn ammv4_shapes_of_17_and_18_accounts_give_the_same_event() {
    let short: Vec<u8> = vec![0, 1, 2, 3, 20, 21, 6, 7, 8, 9, 10, 11, 12, 13, 14, 15, 16];
    let long: Vec<u8> = vec![0, 1, 2, 3, 4, 20, 21, 7, 8, 9, 10, 11, 12, 13, 14, 15, 16, 17];
    let mut first = HashMap::from([(20u8, 500u64), (21u8, 700u64)]);
    let mut second = first.clone();
    let a = ammv4(&short, &transfers(50, 21, 30, 20), &mut first).unwrap();
    let b = ammv4(&long, &transfers(50, 21, 30, 20), &mut second).unwrap();
    assert_eq!(a.direction, SwapDirection::BToA);
    assert_eq!(a.direction, b.direction);
    assert_eq!(a.swapped_amount_in, b.swapped_amount_in);
    assert_eq!(a.swapped_amount_received, b.swapped_amount_received);
    assert_eq!(a.pool_token_a_vault_amount, 470);
    assert_eq!(a.pool_token_b_vault_amount, 750);
    assert_eq!(a.pool_token_a_vault_amount, b.pool_token_a_vault_amount);
    assert_eq!(a.pool_token_b_vault_amount, b.pool_token_b_vault_amount);
    assert_eq!(a.price_a_b_lp, b.price_a_b_lp);
    assert_eq!(a.price_b_a_lp, b.price_b_a_lp);
    assert_eq!(a.token_a_address.bytes, b.token_a_address.bytes);
    assert_eq!(a.token_b_address.bytes, b.token_b_address.bytes);
    assert_eq!(a.market_address.bytes, b.market_address.bytes);
    assert_eq!(a.fee_fraction_lp, b.fee_fraction_lp);
    assert_eq!(first, second);
}

#[test]
fn ammv4_rejects_other_numbers_of_accounts() {
    for count in [0u8, 16, 19, 25] {
        let accounts: Vec<u8> = (0u8..count).collect();
        let mut balances = HashMap::from([(4u8, 10u64), (5u8, 20u64), (6u8, 30u64)]);
        let before = balances.clone();
        let result = ammv4(&accounts, &transfers(1, 4, 1, 5), &mut balances);
        assert!(matches!(
            result,
            Err(DecodeError::InvalidAccountShape { count: c }) if c == count as usize
        ));
        assert_eq!(balances, before);
    }
}

#[test]
fn ammv4_direction_follows_the_destination_of_the_first_transfer() {
    let accounts: Vec<u8> = (0u8..18).collect();
    let mut balances = HashMap::from([(5u8, 1_000u64), (6u8, 4_000u64)]);
    let swap = ammv4(&accounts, &transfers(100, 6, 20, 5), &mut balances).unwrap();
    assert_eq!(swap.direction, SwapDirection::BToA);
    assert_eq!(swap.pool_token_a_vault_amount, 980);
    assert_eq!(swap.pool_token_b_vault_amount, 4_100);
    assert_eq!(swap.price_a_b_lp, 980 * SCALE / 4_100);
    assert_eq!(swap.price_b_a_lp, 4_100 * SCALE / 980);
}

#[test]
fn ammv4_later_swap_sees_the_balances_of_the_earlier_one() {
    let accounts: Vec<u8> = (0u8..18).collect();
    let mut balances = HashMap::from([(5u8, 1_000u64), (6u8, 1_000u64)]);
    let first = ammv4(&accounts, &transfers(100, 5, 50, 6), &mut balances).unwrap();
    let second = ammv4(&accounts, &transfers(100, 5, 50, 6), &mut balances).unwrap();
    assert_eq!(first.pool_token_a_vault_amount, 1_100);
    assert_eq!(first.pool_token_b_vault_amount, 950);
    assert_eq!(second.pool_token_a_vault_amount, 1_200);
    assert_eq!(second.pool_token_b_vault_amount, 900);
}

#[test]
fn ammv4_reports_what_is_missing() {
    let accounts: Vec<u8> = (0u8..18).collect();
    let keys = keys();
    let data = vec![9u8; 17];
    let swap = Instruction {
        tx_account_keys: &keys,
        accounts: &accounts,
        data: &data,
        program_id_index: 39,
    };
    let t = transfers(1, 5, 1, 6);
    let companions = views(&keys, &t);
    let signers = Signers::from_addresses(&[key(0)]);

    let mut balances = HashMap::from([(5u8, 10u64), (6u8, 10u64)]);
    let none = process_raydium_ammv4_swap_instruction(
        &swap, &companions[..1], &mints(), &mut balances, 0, 0, 0, 0, &signers, &signature(),
    );
    assert!(matches!(
        none,
        Err(DecodeError::MissingCompanionInstruction { protocol: Pools::RaydiumAmmV4 })
    ));

    let mut without_vault_a = mints();
    without_vault_a.remove(&5);
    let no_mint = process_raydium_ammv4_swap_instruction(
        &swap, &companions, &without_vault_a, &mut balances, 0, 0, 0, 0, &signers, &signature(),
    );
    assert!(matches!(no_mint, Err(DecodeError::MissingVaultOrMintMapping { address: 5 })));

    let mut only_a = HashMap::from([(5u8, 10u64)]);
    let no_balance = process_raydium_ammv4_swap_instruction(
        &swap, &companions, &mints(), &mut only_a, 0, 0, 0, 0, &signers, &signature(),
    );
    assert!(matches!(no_balance, Err(DecodeError::MissingVaultOrMintMapping { address: 6 })));
    assert_eq!(only_a[&5], 11);

    let mut emptied = HashMap::from([(5u8, 10u64), (6u8, 1u64)]);
    let empty_vault = process_raydium_ammv4_swap_instruction(
        &swap, &companions, &mints(), &mut emptied, 0, 0, 0, 0, &signers, &signature(),
    );
    assert!(matches!(empty_vault, Err(DecodeError::ArithmeticDivisionByZero)));
    assert_eq!(emptied[&5], 11);
    assert_eq!(emptied[&6], 0);

    let mut overdrawn = HashMap::from([(5u8, 10u64), (6u8, 0u64)]);
    let underflow = process_raydium_ammv4_swap_instruction(
        &swap, &companions, &mints(), &mut overdrawn, 0, 0, 0, 0, &signers, &signature(),
    );
    assert!(matches!(underflow, Err(DecodeError::ArithmeticOverflow)));
    assert_eq!(overdrawn[&5], 11);
    assert_eq!(overdrawn[&6], 0);

    let mut full = HashMap::from([(5u8, u64::MAX), (6u8, 10u64)]);
    let overflow = process_raydium_ammv4_swap_instruction(
        &swap, &companions, &mints(), &mut full, 0, 0, 0, 0, &signers, &signature(),
    );
    assert!(matches!(overflow, Err(DecodeError::ArithmeticOverflow)));
    assert_eq!(full[&5], u64::MAX);
    assert_eq!(full[&6], 10);

    let short_data = vec![3u8, 1, 2, 3];
    let short_transfer = Instruction {
        tx_account_keys: &keys,
        accounts: &t.first_accounts,
        data: &short_data,
        program_id_index: 33,
    };
    let with_short = vec![short_transfer, companions[1]];
    let bad_layout = process_raydium_ammv4_swap_instruction(
        &swap, &with_short, &mints(), &mut balances, 0, 0, 0, 0, &signers, &signature(),
    );
    assert!(matches!(
        bad_layout,
        Err(DecodeError::UnrecognizedEventLayout {
            protocol: Pools::RaydiumAmmV4,
            observed_length: 4,
        })
    ));

    let one_account = vec![30u8];
    let no_destination = Instruction {
        tx_account_keys: &keys,
        accounts: &one_account,
        data: &t.first_data,
        program_id_index: 33,
    };
    let with_no_destination = vec![no_destination, companions[1]];
    let bad_shape = process_raydium_ammv4_swap_instruction(
        &swap, &with_no_destination, &mints(), &mut balances, 0, 0, 0, 0, &signers, &signature(),
    );
    assert!(matches!(bad_shape, Err(DecodeError::InvalidAccountShape { count: 1 })));

    let far: Vec<u8> = vec![0, 200, 2, 3, 4, 5, 6, 7, 8, 9, 10, 11, 12, 13, 14, 15, 16, 17];
    let unresolved = Instruction {
        tx_account_keys: &keys,
        accounts: &far,
        data: &data,
        program_id_index: 39,
    };
    let no_market = process_raydium_ammv4_swap_instruction(
        &unresolved, &companions, &mints(), &mut balances, 0, 0, 0, 0, &signers, &signature(),
    );
    assert!(matches!(no_market, Err(DecodeError::UnresolvedAccount { index: 200 })));
}

fn cpmm_accounts(input_mint: u8, output_mint: u8) -> Vec<u8> {
    vec![0, 1, 2, 3, 4, 5, 16, 17, 8, 9, input_mint, output_mint, 12]
}

fn cpmm(
    keys: &[Address],
    accounts: &[u8],
    t: &Transfers,
    balances: &mut HashMap<u8, u64>,
    fees: &Vec<FeeConfigEntry>,
) -> Result<SwapTx, DecodeError> {
    let data = vec![0u8; 24];
    let swap = Instruction { tx_account_keys: keys, accounts, data: &data, program_id_index: 39 };
    let companions = views(keys, t);
    process_raydium_cpmm_swap_instruction(
        &swap, &companions, balances, fees, 5, 6, 7, 8, &Signers::from_addresses(&[key(0)]), &signature(),
    )
}

fn fees() -> Vec<FeeConfigEntry> {
    vec![
        FeeConfigEntry { account: key(99), fee_fraction: 1 },
        FeeConfigEntry { account: key(2), fee_fraction: 2_500_000 },
        FeeConfigEntry { account: key(2), fee_fraction: 3 },
    ]
}

#[test]
fn cpmm_output_mint_with_the_smaller_text_is_token_a() {
    // key(10) sorts behind key(9): the second mint of the account list is the smaller.
    let keys = keys();
    assert!(
        bs58::encode(key(9).bytes).into_string() < bs58::encode(key(10).bytes).into_string()
    );
    let mut balances = HashMap::from([(16u8, 1_000u64), (17u8, 5_000u64)]);
    let swap = cpmm(&keys, &cpmm_accounts(10, 9), &transfers(100, 16, 400, 17), &mut balances, &fees())
        .unwrap();
    assert_eq!(swap.pool, Pools::RaydiumCpmm);
    assert_eq!(swap.direction, SwapDirection::BToA);
    assert_eq!(swap.token_a_address.bytes, key(9).bytes);
    assert_eq!(swap.token_b_address.bytes, key(10).bytes);
    assert_eq!(swap.swapped_amount_in, 100);
    assert_eq!(swap.swapped_amount_received, 400);
    // Token A is the output mint, so vault A is the output vault.
    assert_eq!(swap.pool_token_a_vault_amount, 4_600);
    assert_eq!(swap.pool_token_b_vault_amount, 1_100);
    assert_eq!(swap.price_a_b_lp, 4_600 * SCALE / 1_100);
    assert_eq!(swap.price_b_a_lp, 1_100 * SCALE / 4_600);
    assert_eq!(swap.fee_fraction_lp, 2_500_000);
    assert_eq!(swap.market_address.bytes, key(3).bytes);
    assert_eq!(balances[&16], 1_100);
    assert_eq!(balances[&17], 4_600);
}

#[test]
fn cpmm_input_mint_with_the_smaller_text_is_token_a() {
    let keys = keys();
    let mut balances = HashMap::from([(16u8, 1_000u64), (17u8, 5_000u64)]);
    let swap = cpmm(&keys, &cpmm_accounts(9, 10), &transfers(100, 16, 400, 17), &mut balances, &fees())
        .unwrap();
    assert_eq!(swap.direction, SwapDirection::AToB);
    assert_eq!(swap.token_a_address.bytes, key(9).bytes);
    assert_eq!(swap.token_b_address.bytes, key(10).bytes);
    assert_eq!(swap.pool_token_a_vault_amount, 1_100);
    assert_eq!(swap.pool_token_b_vault_amount, 4_600);
}

#[test]
fn cpmm_pair_has_the_same_slots_whichever_side_is_sent_in() {
    let keys = keys();
    let mut balances = HashMap::from([(16u8, 1_000u64), (17u8, 5_000u64)]);
    let one = cpmm(&keys, &cpmm_accounts(9, 10), &transfers(1, 16, 1, 17), &mut balances, &fees())
        .unwrap();
    let other = cpmm(&keys, &cpmm_accounts(10, 9), &transfers(1, 16, 1, 17), &mut balances, &fees())
        .unwrap();
    assert_eq!(one.token_a_address.bytes, other.token_a_address.bytes);
    assert_eq!(one.token_b_address.bytes, other.token_b_address.bytes);
    assert_eq!(one.direction, SwapDirection::AToB);
    assert_eq!(other.direction, SwapDirection::BToA);
}

#[test]
fn cpmm_orders_mints_by_their_base58_text_and_not_by_their_bytes() {
    // 58^43 - 1 is written with 43 times 'z', 58^43 with '2' and 43 times '1'.
    let mut power = [0u8; 32];
    power[31] = 1;
    for _ in 0..43 {
        let mut carry = 0u32;
        for byte in power.iter_mut().rev() {
            let value = (*byte as u32) * 58 + carry;
            *byte = (value & 0xff) as u8;
            carry = value >> 8;
        }
        assert_eq!(carry, 0);
    }
    let mut below = power;
    for byte in below.iter_mut().rev() {
        if *byte == 0 {
            *byte = 255;
        } else {
            *byte -= 1;
            break;
        }
    }
    assert!(below < power);
    assert_eq!(bs58::encode(below).into_string(), "z".repeat(43));
    assert_eq!(bs58::encode(power).into_string(), format!("2{}", "1".repeat(43)));

    let mut keys = keys();
    keys[9] = Address { bytes: below };
    keys[10] = Address { bytes: power };
    let mut balances = HashMap::from([(16u8, 1_000u64), (17u8, 5_000u64)]);
    let swap = cpmm(&keys, &cpmm_accounts(9, 10), &transfers(1, 16, 1, 17), &mut balances, &fees())
        .unwrap();
    assert_eq!(swap.token_a_address.bytes, power);
    assert_eq!(swap.token_b_address.bytes, below);
    assert_eq!(swap.direction, SwapDirection::BToA);
}

#[test]
fn cpmm_equal_mints_go_from_b_to_a() {
    let keys = keys();
    let mut balances = HashMap::from([(16u8, 1_000u64), (17u8, 5_000u64)]);
    let swap = cpmm(&keys, &cpmm_accounts(9, 9), &transfers(1, 16, 1, 17), &mut balances, &fees())
        .unwrap();
    assert_eq!(swap.direction, SwapDirection::BToA);
}

#[test]
fn cpmm_reports_what_is_missing() {
    let keys = keys();
    let mut balances = HashMap::from([(16u8, 1_000u64), (17u8, 5_000u64)]);
    let no_fee = cpmm(
        &keys,
        &cpmm_accounts(9, 10),
        &transfers(100, 16, 400, 17),
        &mut balances,
        &vec![FeeConfigEntry { account: key(99), fee_fraction: 1 }],
    );
    match no_fee {
        Err(DecodeError::MissingFeeConfig { account }) => assert_eq!(account.bytes, key(2).bytes),
        other => panic!("expected a missing fee configuration, got {:?}", other),
    }
    assert_eq!(balances[&16], 1_100);
    assert_eq!(balances[&17], 4_600);

    let short: Vec<u8> = (0u8..11).collect();
    let bad_shape = cpmm(&keys, &short, &transfers(1, 16, 1, 17), &mut balances, &fees());
    assert!(matches!(bad_shape, Err(DecodeError::InvalidAccountShape { count: 11 })));

    let far = vec![0u8, 1, 2, 3, 4, 5, 16, 17, 8, 9, 250, 11];
    let unresolved = cpmm(&keys, &far, &transfers(1, 16, 1, 17), &mut balances, &fees());
    assert!(matches!(unresolved, Err(DecodeError::UnresolvedAccount { index: 250 })));

    let data = vec![0u8; 24];
    let accounts = cpmm_accounts(9, 10);
    let swap = Instruction {
        tx_account_keys: &keys,
        accounts: &accounts,
        data: &data,
        program_id_index: 39,
    };
    let alone = process_raydium_cpmm_swap_instruction(
        &swap, &[], &mut balances, &fees(), 0, 0, 0, 0, &Signers::new(), &signature(),
    );
    assert!(matches!(
        alone,
        Err(DecodeError::MissingCompanionInstruction { protocol: Pools::RaydiumCpmm })
    ));

    let mut no_vault = HashMap::from([(16u8, 1_000u64)]);
    let missing = cpmm(&keys, &accounts, &transfers(1, 16, 1, 17), &mut no_vault, &fees());
    assert!(matches!(missing, Err(DecodeError::MissingVaultOrMintMapping { address: 17 })));
}

fn launchpad_event(
    virtual_base: u64,
    virtual_quote: u64,
    real_base_after: u64,
    real_quote_after: u64,
    amount_in: u64,
    amount_out: u64,
    fees: [u64; 4],
) -> Vec<u8> {
    let mut data = Vec::new();
    data.extend(borsh::to_vec(&[1u8; 16]).unwrap());
    data.extend(borsh::to_vec(&[2u8; 32]).unwrap());
    let numbers = [
        77u64, // total_base_sell
        virtual_base,
        virtual_quote,
        5, // real_base_before
        6, // real_quote_before
        real_base_after,
        real_quote_after,
        amount_in,
        amount_out,
        fees[0], // protocol
        fees[1], // platform
        fees[2], // creator
        fees[3], // share
    ];
    for number in numbers {
        data.extend(borsh::to_vec(&number).unwrap());
    }
    data.extend(borsh::to_vec(&0u8).unwrap());
    data.extend(borsh::to_vec(&1u8).unwrap());
    data.extend(borsh::to_vec(&true).unwrap());
    data
}

fn launchpad(event_data: &[u8], direction: SwapDirection) -> Result<SwapTx, DecodeError> {
    let keys = keys();
    let accounts: Vec<u8> = (0u8..14).collect();
    let data = vec![0u8; 32];
    let swap = Instruction {
        tx_account_keys: &keys,
        accounts: &accounts,
        data: &data,
        program_id_index: 39,
    };
    let event = Instruction {
        tx_account_keys: &keys,
        accounts: &[],
        data: event_data,
        program_id_index: 39,
    };
    process_raydium_launchpad_swap_instruction(
        &swap, &event, direction, 1, 2, 3, 4, &Signers::from_addresses(&[key(0)]), &signature(),
    )
}

#[test]
fn launchpad_event_has_155_bytes() {
    assert_eq!(launchpad_event(0, 0, 0, 0, 0, 0, [0; 4]).len(), 155);
    assert_eq!(LaunchpadTradeEventIdl::LEN, 155);
}

#[test]
fn launchpad_sale_is_charged_on_what_was_received() {
    let data = launchpad_event(1_000_000, 30_000, 400_000, 20_000, 5_000, 900, [40, 30, 20, 10]);
    let swap = launchpad(&data, SwapDirection::AToB).unwrap();
    assert_eq!(swap.pool, Pools::RaydiumLaunchpad);
    assert_eq!(swap.direction, SwapDirection::AToB);
    assert_eq!(swap.swapped_amount_in, 5_000);
    assert_eq!(swap.swapped_amount_received, 900);
    assert_eq!(swap.fee_fraction_lp, 100_000_000);
    assert_eq!(swap.pool_token_a_vault_amount, 600_000);
    assert_eq!(swap.pool_token_b_vault_amount, 50_000);
    assert_eq!(swap.price_a_b_lp, 12 * SCALE);
    assert_eq!(swap.price_b_a_lp, 83_333_333);
    assert_eq!(swap.token_a_address.bytes, key(9).bytes);
    assert_eq!(swap.token_b_address.bytes, key(10).bytes);
    assert_eq!(swap.market_address.bytes, key(4).bytes);
}

#[test]
fn launchpad_purchase_is_charged_on_what_was_sent_in() {
    let data = launchpad_event(1_000_000, 30_000, 400_000, 20_000, 5_000, 900, [40, 30, 20, 10]);
    let swap = launchpad(&data, SwapDirection::BToA).unwrap();
    assert_eq!(swap.direction, SwapDirection::BToA);
    assert_eq!(swap.fee_fraction_lp, 20_000_000);
}

#[test]
fn launchpad_fee_fraction_can_exceed_one_on_a_purchase() {
    let data = launchpad_event(1_000_000, 30_000, 400_000, 20_000, 1, 900, [2, 0, 0, 0]);
    let swap = launchpad(&data, SwapDirection::BToA).unwrap();
    assert_eq!(swap.fee_fraction_lp as u128, 2 * SCALE);
}

#[test]
fn launchpad_reports_what_it_cannot_decode() {
    let good = launchpad_event(1_000_000, 30_000, 400_000, 20_000, 5_000, 900, [40, 30, 20, 10]);
    for length in [0usize, 154, 156] {
        let mut data = good.clone();
        data.resize(length, 0);
        assert!(matches!(
            launchpad(&data, SwapDirection::AToB),
            Err(DecodeError::UnrecognizedEventLayout {
                protocol: Pools::RaydiumLaunchpad,
                observed_length,
            }) if observed_length == length
        ));
    }
    let mut bad_flag = good.clone();
    bad_flag[154] = 2;
    assert!(matches!(
        launchpad(&bad_flag, SwapDirection::AToB),
        Err(DecodeError::UnrecognizedEventLayout {
            protocol: Pools::RaydiumLaunchpad,
            observed_length: 155,
        })
    ));
    let nothing_in = launchpad_event(1_000_000, 30_000, 400_000, 20_000, 0, 900, [1, 0, 0, 0]);
    assert!(matches!(
        launchpad(&nothing_in, SwapDirection::BToA),
        Err(DecodeError::ArithmeticDivisionByZero)
    ));
    let nothing_at_all = launchpad_event(1_000_000, 30_000, 400_000, 20_000, 5, 0, [0; 4]);
    assert!(matches!(
        launchpad(&nothing_at_all, SwapDirection::AToB),
        Err(DecodeError::ArithmeticDivisionByZero)
    ));
    let more_real_than_virtual = launchpad_event(10, 30_000, 11, 20_000, 5_000, 900, [1, 0, 0, 0]);
    assert!(matches!(
        launchpad(&more_real_than_virtual, SwapDirection::AToB),
        Err(DecodeError::ArithmeticOverflow)
    ));
    let too_much_quote = launchpad_event(10, u64::MAX, 1, 1, 5_000, 900, [1, 0, 0, 0]);
    assert!(matches!(
        launchpad(&too_much_quote, SwapDirection::AToB),
        Err(DecodeError::ArithmeticOverflow)
    ));
    let huge_fee = launchpad_event(10, 10, 1, 1, 1, 900, [u64::MAX, u64::MAX, 0, 0]);
    assert!(matches!(
        launchpad(&huge_fee, SwapDirection::BToA),
        Err(DecodeError::ArithmeticOverflow)
    ));
    let empty_pool = launchpad_event(10, 0, 10, 0, 5_000, 900, [1, 0, 0, 0]);
    assert!(matches!(
        launchpad(&empty_pool, SwapDirection::AToB),
        Err(DecodeError::ArithmeticDivisionByZero)
    ));
}

#[test]
fn cpmm_slots_follow_the_texts_that_are_given() {
    let keys = keys();
    let accounts = CpmmAccounts {
        fee_config: key(2),
        market: key(3),
        input_vault: 16,
        output_vault: 17,
        input_mint: key(9),
        output_mint: key(10),
    };
    let t = transfers(100, 16, 400, 17);
    let companions = views(&keys, &t);
    let decode = |input_text: &[u8], output_text: &[u8]| {
        let mut balances = HashMap::from([(16u8, 1_000u64), (17u8, 5_000u64)]);
        decode_raydium_cpmm_swap(
            &accounts,
            &companions,
            &mut balances,
            &fees(),
            input_text,
            output_text,
            5,
            6,
            7,
            8,
            &Signers::from_addresses(&[key(0)]),
            &signature(),
        )
        .unwrap()
    };
    let forward = decode(b"Abc", b"Abd");
    assert_eq!(forward.direction, SwapDirection::AToB);
    assert_eq!(forward.token_a_address, key(9));
    assert_eq!(forward.token_b_address, key(10));
    assert_eq!(forward.pool_token_a_vault_amount, 1_100);
    assert_eq!(forward.pool_token_b_vault_amount, 4_600);
    let backward = decode(b"Abd", b"Abc");
    assert_eq!(backward.direction, SwapDirection::BToA);
    assert_eq!(backward.token_a_address, key(10));
    assert_eq!(backward.token_b_address, key(9));
    assert_eq!(backward.pool_token_a_vault_amount, 4_600);
    assert_eq!(backward.pool_token_b_vault_amount, 1_100);
    let shorter_first = decode(b"zz", b"zzz");
    assert_eq!(shorter_first.direction, SwapDirection::AToB);
}
