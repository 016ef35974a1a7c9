use std::collections::HashMap;

use solana_tx_decoding::analyze_tx;
use solana_tx_decoding::constants;
use solana_tx_decoding::Address;
use solana_tx_decoding::DecodeError;
use solana_tx_decoding::FeeConfigEntry;
use solana_tx_decoding::Instruction;
use solana_tx_decoding::NormalizedTx;
use solana_tx_decoding::Outcome;
use solana_tx_decoding::Pools;
use solana_tx_decoding::Signature;
use solana_tx_decoding::Signers;
use solana_tx_decoding::SwapDirection;
use solana_tx_decoding::TokenBalance;
use solana_tx_decoding::TokenMint;

fn key(tag: u8) -> Address {
    let mut bytes = [0u8; 32];
    bytes[0] = 200;
    bytes[31] = tag;
    Address { bytes }
}

fn keys_with(program: [u8; 32]) -> Vec<Address> {
    let mut keys: Vec<Address> = (0u8..30).map(key).collect();
    keys[29] = Address { bytes: program };
    keys
}

fn transfer_data(amount: u64) -> Vec<u8> {
    let mut data = vec![3u8];
    data.extend_from_slice(&amount.to_le_bytes());
    data
}

fn ammv4_swap_data() -> Vec<u8> {
    let mut data = vec![0u8; 17];
    data[0] = constants::AMMV4_SWAP_BASE_IN;
    data
}

#[test]
fn ammv4_swap_at_top_level_yields_one_event() {
    let keys = keys_with(constants::RAYDIUM_AMM_PROGRAM);
    let accounts: Vec<u8> = (0u8..18).collect();
    let swap_data = ammv4_swap_data();
    let first_data = transfer_data(1_000_000);
    let second_data = transfer_data(2_000_000);
    let first_accounts = vec![20u8, 5, 21];
    let second_accounts = vec![6u8, 22, 21];
    let swap = Instruction {
        tx_account_keys: &keys,
        accounts: &accounts,
        data: &swap_data,
        program_id_index: 29,
    };
    let first = Instruction {
        tx_account_keys: &keys,
        accounts: &first_accounts,
        data: &first_data,
        program_id_index: 28,
    };
    let second = Instruction {
        tx_account_keys: &keys,
        accounts: &second_accounts,
        data: &second_data,
        program_id_index: 28,
    };
    let mut inner = HashMap::new();
    inner.insert(0u8, vec![first, second]);
    let signature = Signature { bytes: [7u8; 64] };
    let tx = NormalizedTx {
        failed: false,
        top_level_instructions: vec![swap],
        inner_instructions: inner,
        account_keys: &keys,
        pre_token_balances: vec![
            TokenBalance { account_index: 5, mint: key(105), amount: 10_000_000 },
            TokenBalance { account_index: 6, mint: key(106), amount: 20_000_000 },
        ],
        post_token_balances: vec![
            TokenMint { account_index: 5, mint: key(105) },
            TokenMint { account_index: 6, mint: key(106) },
        ],
        signers: Signers::from_addresses(&[key(0)]),
        signature,
    };
    let fee_config: Vec<FeeConfigEntry> = Vec::new();
    let mut events: Vec<Outcome> = Vec::new();
    let result = analyze_tx(&tx, &fee_config, &mut events, 1_700_000_000, 250, 3);
    assert!(result.is_ok());
    assert_eq!(events.len(), 1);
    match &events[0] {
        Outcome::Swap(swap) => {
            assert!(matches!(swap.pool, Pools::RaydiumAmmV4));
            assert!(matches!(swap.direction, SwapDirection::AToB));
            assert_eq!(swap.swapped_amount_in, 1_000_000);
            assert_eq!(swap.swapped_amount_received, 2_000_000);
            assert_eq!(swap.pool_token_a_vault_amount, 11_000_000);
            assert_eq!(swap.pool_token_b_vault_amount, 18_000_000);
            assert_eq!(swap.fee_fraction_lp, constants::AMMV4_FEE_FRACTION);
            assert_eq!(swap.fee_fraction_lp, 2_500_000);
            assert_eq!(swap.price_a_b_lp, 11_000_000u128 * 1_000_000_000 / 18_000_000);
            assert_eq!(swap.price_b_a_lp, 18_000_000u128 * 1_000_000_000 / 11_000_000);
            assert_eq!(swap.token_a_address.bytes, key(105).bytes);
            assert_eq!(swap.token_b_address.bytes, key(106).bytes);
            assert_eq!(swap.market_address.bytes, key(1).bytes);
            assert_eq!(swap.atomic_instruction_index, 0);
            assert_eq!(swap.block_time, 1_700_000_000);
            assert_eq!(swap.slot, 250);
            assert_eq!(swap.index, 3);
            assert_eq!(swap.signature.bytes, [7u8; 64]);
            assert_eq!(swap.signers.addresses().len(), 1);
            assert_eq!(swap.signers.addresses()[0].bytes, key(0).bytes);
        }
        other => panic!("expected a swap, got {:?}", other),
    }
}

#[test]
fn failed_transaction_yields_nothing() {
    let keys = keys_with(constants::RAYDIUM_AMM_PROGRAM);
    let accounts: Vec<u8> = (0u8..18).collect();
    let swap_data = ammv4_swap_data();
    let swap = Instruction {
        tx_account_keys: &keys,
        accounts: &accounts,
        data: &swap_data,
        program_id_index: 29,
    };
    let tx = NormalizedTx {
        failed: true,
        top_level_instructions: vec![swap],
        inner_instructions: HashMap::new(),
        account_keys: &keys,
        pre_token_balances: Vec::new(),
        post_token_balances: Vec::new(),
        signers: Signers::new(),
        signature: Signature { bytes: [0u8; 64] },
    };
    let mut events: Vec<Outcome> = Vec::new();
    let result = analyze_tx(&tx, &Vec::new(), &mut events, 0, 0, 0);
    assert!(result.is_ok());
    assert!(events.is_empty());
}

#[test]
fn swap_without_transfers_is_reported_as_failed() {
    let keys = keys_with(constants::RAYDIUM_AMM_PROGRAM);
    let accounts: Vec<u8> = (0u8..18).collect();
    let swap_data = ammv4_swap_data();
    let swap = Instruction {
        tx_account_keys: &keys,
        accounts: &accounts,
        data: &swap_data,
        program_id_index: 29,
    };
    let tx = NormalizedTx {
        failed: false,
        top_level_instructions: vec![swap],
        inner_instructions: HashMap::new(),
        account_keys: &keys,
        pre_token_balances: vec![
            TokenBalance { account_index: 5, mint: key(105), amount: 10 },
            TokenBalance { account_index: 6, mint: key(106), amount: 20 },
        ],
        post_token_balances: Vec::new(),
        signers: Signers::new(),
        signature: Signature { bytes: [0u8; 64] },
    };
    let mut events: Vec<Outcome> = Vec::new();
    let result = analyze_tx(&tx, &Vec::new(), &mut events, 0, 0, 0);
    assert!(result.is_ok());
    assert_eq!(events.len(), 1);
    assert!(matches!(
        events[0],
        Outcome::Failed {
            atomic_instruction_index: 0,
            error: DecodeError::MissingCompanionInstruction { protocol: Pools::RaydiumAmmV4 },
        }
    ));
}

#[test]
fn cpmm_swap_with_the_smaller_mint_second_goes_from_b_to_a() {
    let keys = keys_with(constants::RAYDIUM_CPMM_PROGRAM);
    // The mints stand at the positions 10 and 11; the second is the smaller.
    let accounts: Vec<u8> = vec![0, 1, 2, 3, 4, 5, 16, 17, 18, 19, 9, 8, 12];
    assert!(
        bs58::encode(key(8).bytes).into_string() < bs58::encode(key(9).bytes).into_string()
    );
    let mut swap_data = constants::CPMM_SWAP_BASE_INPUT.to_vec();
    swap_data.resize(24, 0);
    let first_data = transfer_data(300);
    let second_data = transfer_data(700);
    let first_accounts = vec![20u8, 16, 21];
    let second_accounts = vec![17u8, 22, 21];
    let swap = Instruction {
        tx_account_keys: &keys,
        accounts: &accounts,
        data: &swap_data,
        program_id_index: 29,
    };
    let first = Instruction {
        tx_account_keys: &keys,
        accounts: &first_accounts,
        data: &first_data,
        program_id_index: 28,
    };
    let second = Instruction {
        tx_account_keys: &keys,
        accounts: &second_accounts,
        data: &second_data,
        program_id_index: 28,
    };
    let mut inner = HashMap::new();
    inner.insert(0u8, vec![first, second]);
    let tx = NormalizedTx {
        failed: false,
        top_level_instructions: vec![swap],
        inner_instructions: inner,
        account_keys: &keys,
        pre_token_balances: vec![
            TokenBalance { account_index: 16, mint: key(9), amount: 10_000 },
            TokenBalance { account_index: 17, mint: key(8), amount: 20_000 },
        ],
        post_token_balances: Vec::new(),
        signers: Signers::from_addresses(&[key(0)]),
        signature: Signature { bytes: [7u8; 64] },
    };
    let fee_config = vec![FeeConfigEntry { account: key(2), fee_fraction: 2_500_000 }];
    let mut events: Vec<Outcome> = Vec::new();
    let result = analyze_tx(&tx, &fee_config, &mut events, 1, 2, 3);
    assert!(result.is_ok());
    assert_eq!(events.len(), 1);
    match &events[0] {
        Outcome::Swap(swap) => {
            assert_eq!(swap.pool, Pools::RaydiumCpmm);
            assert_eq!(swap.direction, SwapDirection::BToA);
            assert_eq!(swap.token_a_address, key(8));
            assert_eq!(swap.token_b_address, key(9));
            assert_eq!(swap.swapped_amount_in, 300);
            assert_eq!(swap.swapped_amount_received, 700);
            assert_eq!(swap.pool_token_a_vault_amount, 19_300);
            assert_eq!(swap.pool_token_b_vault_amount, 10_300);
            assert_eq!(swap.fee_fraction_lp, 2_500_000);
            assert_eq!(swap.market_address, key(3));
        }
        other => panic!("expected a swap, got {:?}", other),
    }
}
