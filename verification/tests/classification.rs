use solana_tx_decoding::classify_instruction;
use solana_tx_decoding::constants;
use solana_tx_decoding::is_pf_bonding_curve_create_instruction;
use solana_tx_decoding::is_pumpfun_event_instruction;
use solana_tx_decoding::is_pumpswap_swap_instruction;
use solana_tx_decoding::is_raydium_ammv4_swap_instruction;
use solana_tx_decoding::is_raydium_cpmm_swap_instruction;
use solana_tx_decoding::is_raydium_launchpad_swap_instruction;
use solana_tx_decoding::Address;
use solana_tx_decoding::Instruction;
use solana_tx_decoding::InstructionType;
use solana_tx_decoding::SwapDirection;

fn plain_key(tag: u8) -> Address {
    let mut bytes = [0u8; 32];
    bytes[0] = 201;
    bytes[31] = tag;
    Address { bytes }
}

/// Thirty keys; the last is `program`, the one before it `authority`.
fn keys(program: [u8; 32], authority: [u8; 32]) -> Vec<Address> {
    let mut keys: Vec<Address> = (0u8..30).map(plain_key).collect();
    keys[28] = Address { bytes: authority };
    keys[29] = Address { bytes: program };
    keys
}

fn payload(prefix: &[u8], length: usize) -> Vec<u8> {
    let mut data = prefix.to_vec();
    while data.len() < length {
        data.push(0);
    }
    data
}

fn classify(keys: &[Address], accounts: &[u8], data: &[u8]) -> (InstructionType, SwapDirection) {
    let instruction = Instruction { tx_account_keys: keys, accounts, data, program_id_index: 29 };
    classify_instruction(&instruction)
}

#[test]
fn ammv4_swap_is_recognized_for_both_discriminators() {
    let keys = keys(constants::RAYDIUM_AMM_PROGRAM, [0u8; 32]);
    let accounts: Vec<u8> = (0u8..17).collect();
    for discriminator in [9u8, 11u8] {
        let data = payload(&[discriminator], 17);
        let instruction = Instruction {
            tx_account_keys: &keys,
            accounts: &accounts,
            data: &data,
            program_id_index: 29,
        };
        assert!(is_raydium_ammv4_swap_instruction(&instruction));
        assert_eq!(
            classify_instruction(&instruction),
            (InstructionType::RaydiumAmmV4Swap, SwapDirection::AToB)
        );
    }
}

#[test]
fn ammv4_swap_needs_its_minimum_lengths_and_discriminator() {
    let keys = keys(constants::RAYDIUM_AMM_PROGRAM, [0u8; 32]);
    let accounts: Vec<u8> = (0u8..17).collect();
    let short_accounts: Vec<u8> = (0u8..16).collect();
    assert_eq!(classify(&keys, &accounts, &payload(&[9], 16)).0, InstructionType::NoMatch);
    assert_eq!(classify(&keys, &short_accounts, &payload(&[9], 17)).0, InstructionType::NoMatch);
    assert_eq!(classify(&keys, &accounts, &payload(&[10], 17)).0, InstructionType::NoMatch);
    assert_eq!(
        classify(&keys, &accounts, &payload(&[9], 40)).0,
        InstructionType::RaydiumAmmV4Swap
    );
}

#[test]
fn cpmm_swap_is_recognized_for_both_discriminators() {
    let keys = keys(constants::RAYDIUM_CPMM_PROGRAM, [0u8; 32]);
    let accounts: Vec<u8> = (0u8..13).collect();
    for discriminator in [constants::CPMM_SWAP_BASE_INPUT, constants::CPMM_SWAP_BASE_OUTPUT] {
        let data = payload(&discriminator, 24);
        let instruction = Instruction {
            tx_account_keys: &keys,
            accounts: &accounts,
            data: &data,
            program_id_index: 29,
        };
        assert!(is_raydium_cpmm_swap_instruction(&instruction));
        assert_eq!(
            classify_instruction(&instruction),
            (InstructionType::RaydiumCpmmSwap, SwapDirection::AToB)
        );
    }
    assert_eq!(
        classify(&keys, &accounts, &payload(&constants::CPMM_SWAP_BASE_INPUT, 23)).0,
        InstructionType::NoMatch
    );
    let short_accounts: Vec<u8> = (0u8..12).collect();
    assert_eq!(
        classify(&keys, &short_accounts, &payload(&constants::CPMM_SWAP_BASE_INPUT, 24)).0,
        InstructionType::NoMatch
    );
    assert_eq!(
        classify(&keys, &accounts, &payload(&[143, 190, 90, 218, 196, 30, 51, 223], 24)).0,
        InstructionType::NoMatch
    );
}

#[test]
fn launchpad_swap_takes_its_direction_from_the_discriminator() {
    let keys = keys(constants::RAYDIUM_LAUNCHPAD_PROGRAM, [0u8; 32]);
    let accounts: Vec<u8> = (0u8..14).collect();
    let cases = [
        (constants::LAUNCHPAD_BUY_EXACT_IN, SwapDirection::BToA),
        (constants::LAUNCHPAD_SELL_EXACT_IN, SwapDirection::AToB),
        (constants::LAUNCHPAD_BUY_EXACT_OUT, SwapDirection::BToA),
        (constants::LAUNCHPAD_SELL_EXACT_OUT, SwapDirection::AToB),
    ];
    for (discriminator, direction) in cases {
        let data = payload(&discriminator, 32);
        let instruction = Instruction {
            tx_account_keys: &keys,
            accounts: &accounts,
            data: &data,
            program_id_index: 29,
        };
        assert_eq!(is_raydium_launchpad_swap_instruction(&instruction), (true, direction));
        assert_eq!(
            classify_instruction(&instruction),
            (InstructionType::RaydiumLaunchpadSwap, direction)
        );
    }
    let short = payload(&constants::LAUNCHPAD_BUY_EXACT_IN, 31);
    let instruction = Instruction {
        tx_account_keys: &keys,
        accounts: &accounts,
        data: &short,
        program_id_index: 29,
    };
    assert_eq!(
        is_raydium_launchpad_swap_instruction(&instruction),
        (false, SwapDirection::AToB)
    );
    let short_accounts: Vec<u8> = (0u8..13).collect();
    assert_eq!(
        classify(&keys, &short_accounts, &payload(&constants::LAUNCHPAD_BUY_EXACT_IN, 32)).0,
        InstructionType::NoMatch
    );
}

#[test]
fn pumpswap_swap_takes_its_direction_from_the_discriminator() {
    let keys = keys(constants::PUMP_SWAP_PROGRAM, [0u8; 32]);
    let no_accounts: Vec<u8> = Vec::new();
    let cases = [
        (constants::PUMPSWAP_BUY, SwapDirection::BToA),
        (constants::PUMPSWAP_SELL, SwapDirection::AToB),
        (constants::PUMPSWAP_BUY_EXACT_QUOTE_IN, SwapDirection::BToA),
    ];
    for (discriminator, direction) in cases {
        let data = payload(&discriminator, 24);
        let instruction = Instruction {
            tx_account_keys: &keys,
            accounts: &no_accounts,
            data: &data,
            program_id_index: 29,
        };
        assert_eq!(is_pumpswap_swap_instruction(&instruction), (true, direction));
        assert_eq!(classify_instruction(&instruction), (InstructionType::PumpswapSwap, direction));
    }
    assert_eq!(
        classify(&keys, &no_accounts, &payload(&constants::PUMPSWAP_BUY, 23)).0,
        InstructionType::NoMatch
    );
    assert_eq!(
        classify(&keys, &no_accounts, &payload(&[1, 2, 3, 4, 5, 6, 7, 8], 24)).0,
        InstructionType::NoMatch
    );
}

#[test]
fn pumpfun_event_needs_the_event_authority_as_first_account() {
    let keys = keys(
        constants::PUMP_BONDING_CURVE_PROGRAM,
        constants::PUMP_BONDING_CURVE_EVENT_AUTHORITY,
    );
    let data = payload(&constants::PF_EVENT_DISCRIMINATOR, 137);
    let with_authority = vec![28u8];
    let instruction = Instruction {
        tx_account_keys: &keys,
        accounts: &with_authority,
        data: &data,
        program_id_index: 29,
    };
    assert!(is_pumpfun_event_instruction(&instruction));
    assert_eq!(
        classify_instruction(&instruction),
        (InstructionType::PfBondingCurveSwap, SwapDirection::AToB)
    );
    assert_eq!(classify(&keys, &[3u8], &data).0, InstructionType::NoMatch);
    assert_eq!(classify(&keys, &[], &data).0, InstructionType::NoMatch);
    assert_eq!(
        classify(&keys, &with_authority, &payload(&constants::PF_EVENT_DISCRIMINATOR, 99)).0,
        InstructionType::NoMatch
    );
    assert_eq!(
        classify(&keys, &with_authority, &payload(&constants::PF_EVENT_DISCRIMINATOR, 100)).0,
        InstructionType::PfBondingCurveSwap
    );
}

#[test]
fn bonding_curve_creation_is_recognized() {
    let keys = keys(constants::PUMP_BONDING_CURVE_PROGRAM, [0u8; 32]);
    let accounts: Vec<u8> = (0u8..14).collect();
    let data = payload(&constants::PF_CREATE_DISCRIMINATOR, 40);
    let instruction = Instruction {
        tx_account_keys: &keys,
        accounts: &accounts,
        data: &data,
        program_id_index: 29,
    };
    assert!(is_pf_bonding_curve_create_instruction(&instruction));
    assert_eq!(
        classify_instruction(&instruction),
        (InstructionType::PfBondingCurveCreate, SwapDirection::AToB)
    );
    let short_accounts: Vec<u8> = (0u8..13).collect();
    assert_eq!(classify(&keys, &short_accounts, &data).0, InstructionType::NoMatch);
    assert_eq!(
        classify(&keys, &accounts, &payload(&constants::PF_CREATE_DISCRIMINATOR, 39)).0,
        InstructionType::NoMatch
    );
}

#[test]
fn unknown_program_is_never_matched() {
    let unknown = keys([9u8; 32], constants::PUMP_BONDING_CURVE_EVENT_AUTHORITY);
    let accounts: Vec<u8> = (0u8..18).collect();
    let authority_first = vec![28u8];
    let payloads: Vec<Vec<u8>> = vec![
        payload(&[9], 17),
        payload(&constants::CPMM_SWAP_BASE_INPUT, 24),
        payload(&constants::LAUNCHPAD_BUY_EXACT_IN, 32),
        payload(&constants::PUMPSWAP_SELL, 24),
        payload(&constants::PF_EVENT_DISCRIMINATOR, 137),
        payload(&constants::PF_CREATE_DISCRIMINATOR, 40),
    ];
    for data in &payloads {
        assert_eq!(
            classify(&unknown, &accounts, data),
            (InstructionType::NoMatch, SwapDirection::AToB)
        );
        assert_eq!(
            classify(&unknown, &authority_first, data),
            (InstructionType::NoMatch, SwapDirection::AToB)
        );
    }
}

#[test]
fn program_index_past_the_keys_is_never_matched() {
    let keys = keys(constants::RAYDIUM_AMM_PROGRAM, [0u8; 32]);
    let accounts: Vec<u8> = (0u8..17).collect();
    let data = payload(&[9], 17);
    let instruction = Instruction {
        tx_account_keys: &keys,
        accounts: &accounts,
        data: &data,
        program_id_index: 30,
    };
    assert!(!is_raydium_ammv4_swap_instruction(&instruction));
    assert_eq!(
        classify_instruction(&instruction),
        (InstructionType::NoMatch, SwapDirection::AToB)
    );
}

#[test]
fn a_protocol_does_not_match_the_discriminator_of_another() {
    let keys = keys(constants::RAYDIUM_CPMM_PROGRAM, [0u8; 32]);
    let accounts: Vec<u8> = (0u8..18).collect();
    assert_eq!(classify(&keys, &accounts, &payload(&[9], 24)).0, InstructionType::NoMatch);
    assert_eq!(
        classify(&keys, &accounts, &payload(&constants::PUMPSWAP_BUY, 24)).0,
        InstructionType::NoMatch
    );
}
