//! Swaps on Raydium CPMM.

use vstd::prelude::*;
use std::collections::HashMap;
use crate::address::Address;
use crate::address::Signature;
use crate::bytes::lex_less;
use crate::bytes::lexicographically_less;
use crate::constants;
use crate::decode::common::PoolQuote;
use crate::decode::common::quote;
use crate::decode::common::quoted;
use crate::decode::common::read_transfer_amounts;
use crate::decode::common::settle;
use crate::decode::common::settled;
use crate::decode::common::transfer_amounts;
use crate::outside::base58_encode;
use crate::outside::base58_text;
use crate::tables::FeeConfigEntry;
use crate::tables::fee_of;
use crate::tables::lookup_fee;
use crate::types::DecodeError;
use crate::types::Instruction;
use crate::types::Pools;
use crate::types::Provenance;
use crate::types::SwapDirection;
use crate::types::SwapTx;
use crate::types::SwapTxView;
use crate::types::provenance_of;
use crate::types::swap_result_view;
use crate::signers::Signers;

verus! {

/// The number of accounts that the decoder reads from a swap's list.
pub const CPMM_ACCOUNTS_READ: usize = 12;

/// What a swap's account list names.
#[derive(Clone, Copy, Debug)]
pub struct CpmmAccounts {
    pub fee_config: Address,
    pub market: Address,
    pub input_vault: u8,
    pub output_vault: u8,
    pub input_mint: Address,
    pub output_mint: Address,
}

/// The error of the first of the positions 3, 10, 11 and 2 of the account
/// list whose key the transaction does not hold.
pub open spec fn cpmm_unresolved(instruction: Instruction) -> Option<DecodeError> {
    if instruction.account_key(constants::CPMM_MARKET_POSITION as int) is None {
        Some(
            DecodeError::UnresolvedAccount {
                index: instruction.accounts@[constants::CPMM_MARKET_POSITION as int],
            },
        )
    } else if instruction.account_key(constants::CPMM_INPUT_MINT_POSITION as int) is None {
        Some(
            DecodeError::UnresolvedAccount {
                index: instruction.accounts@[constants::CPMM_INPUT_MINT_POSITION as int],
            },
        )
    } else if instruction.account_key(constants::CPMM_OUTPUT_MINT_POSITION as int) is None {
        Some(
            DecodeError::UnresolvedAccount {
                index: instruction.accounts@[constants::CPMM_OUTPUT_MINT_POSITION as int],
            },
        )
    } else if instruction.account_key(constants::CPMM_FEE_CONFIG_POSITION as int) is None {
        Some(
            DecodeError::UnresolvedAccount {
                index: instruction.accounts@[constants::CPMM_FEE_CONFIG_POSITION as int],
            },
        )
    } else {
        None
    }
}

/// The fee configuration account, the market, the vaults and the mints, at
/// the positions 2, 3, 6, 7, 10 and 11 of the account list.
pub open spec fn cpmm_accounts(instruction: Instruction) -> Result<CpmmAccounts, DecodeError> {
    if instruction.accounts@.len() < CPMM_ACCOUNTS_READ {
        Err(DecodeError::InvalidAccountShape { count: instruction.accounts@.len() as usize })
    } else if cpmm_unresolved(instruction) is Some {
        Err(cpmm_unresolved(instruction)->Some_0)
    } else {
        Ok(
            CpmmAccounts {
                fee_config: instruction.account_key(
                    constants::CPMM_FEE_CONFIG_POSITION as int,
                )->Some_0,
                market: instruction.account_key(constants::CPMM_MARKET_POSITION as int)->Some_0,
                input_vault: instruction.accounts@[constants::CPMM_INPUT_VAULT_POSITION as int],
                output_vault: instruction.accounts@[constants::CPMM_OUTPUT_VAULT_POSITION as int],
                input_mint: instruction.account_key(
                    constants::CPMM_INPUT_MINT_POSITION as int,
                )->Some_0,
                output_mint: instruction.account_key(
                    constants::CPMM_OUTPUT_MINT_POSITION as int,
                )->Some_0,
            },
        )
    }
}

/// Whether the input mint takes slot A: its text comes strictly before the
/// output mint's in lexicographic order.
pub open spec fn cpmm_input_is_token_a(input_text: Seq<u8>, output_text: Seq<u8>) -> bool {
    lex_less(input_text, output_text)
}

/// The event of a swap whose accounts, amounts, fee and prices are known.
/// The mint with the smaller text is token A; the swap goes from A to B
/// where that is the input mint.
pub open spec fn cpmm_event(
    accounts: CpmmAccounts,
    amounts: (u64, u64),
    input_is_token_a: bool,
    fee_fraction: u64,
    quote: PoolQuote,
    provenance: Provenance,
) -> SwapTxView {
    SwapTxView {
        pool: Pools::RaydiumCpmm,
        direction: if input_is_token_a {
            SwapDirection::AToB
        } else {
            SwapDirection::BToA
        },
        block_time: provenance.block_time,
        slot: provenance.slot,
        index: provenance.index,
        atomic_instruction_index: provenance.atomic_instruction_index,
        fee_fraction_lp: fee_fraction,
        swapped_amount_in: amounts.0,
        swapped_amount_received: amounts.1,
        pool_token_a_vault_amount: quote.vault_a_amount,
        pool_token_b_vault_amount: quote.vault_b_amount,
        price_a_b_lp: quote.price_a_b,
        price_b_a_lp: quote.price_b_a,
        token_a_address: if input_is_token_a {
            accounts.input_mint
        } else {
            accounts.output_mint
        },
        token_b_address: if input_is_token_a {
            accounts.output_mint
        } else {
            accounts.input_mint
        },
        market_address: accounts.market,
        signature: provenance.signature,
        signers: provenance.signers,
    }
}

/// The balance table after a swap with the given accounts and mint texts,
/// and the swap's event or the reason why there is none. The input vault
/// receives the first transfer's amount and the output vault pays the
/// second's; the table changes only once both amounts have been read.
pub open spec fn cpmm_decoded_with(
    accounts: CpmmAccounts,
    transfers: Seq<Instruction>,
    table: Map<u8, u64>,
    fee_config: Seq<FeeConfigEntry>,
    input_text: Seq<u8>,
    output_text: Seq<u8>,
    provenance: Provenance,
) -> (Map<u8, u64>, Result<SwapTxView, DecodeError>) {
    match transfer_amounts(transfers, Pools::RaydiumCpmm) {
        Err(error) => (table, Err(error)),
        Ok(amounts) => {
            let booked = settled(
                table,
                accounts.input_vault,
                amounts.0,
                accounts.output_vault,
                amounts.1,
            );
            let input_is_token_a = cpmm_input_is_token_a(input_text, output_text);
            let vault_a = if input_is_token_a {
                accounts.input_vault
            } else {
                accounts.output_vault
            };
            let vault_b = if input_is_token_a {
                accounts.output_vault
            } else {
                accounts.input_vault
            };
            match booked.1 {
                Err(error) => (booked.0, Err(error)),
                Ok(_) => match fee_of(fee_config, accounts.fee_config) {
                    None => (
                        booked.0,
                        Err(DecodeError::MissingFeeConfig { account: accounts.fee_config }),
                    ),
                    Some(fee_fraction) => match quoted(booked.0, vault_a, vault_b) {
                        Err(error) => (booked.0, Err(error)),
                        Ok(quote) => (
                            booked.0,
                            Ok(
                                cpmm_event(
                                    accounts,
                                    amounts,
                                    input_is_token_a,
                                    fee_fraction,
                                    quote,
                                    provenance,
                                ),
                            ),
                        ),
                    },
                },
            }
        },
    }
}

/// The balance table after a swap, and the swap's event or the reason why
/// there is none. The mints are ordered by their Base58 texts.
pub open spec fn cpmm_decoded(
    instruction: Instruction,
    transfers: Seq<Instruction>,
    table: Map<u8, u64>,
    fee_config: Seq<FeeConfigEntry>,
    provenance: Provenance,
) -> (Map<u8, u64>, Result<SwapTxView, DecodeError>) {
    match cpmm_accounts(instruction) {
        Err(error) => (table, Err(error)),
        Ok(accounts) => cpmm_decoded_with(
            accounts,
            transfers,
            table,
            fee_config,
            base58_text(accounts.input_mint@),
            base58_text(accounts.output_mint@),
            provenance,
        ),
    }
}

/// Reads the accounts of a swap.
pub fn read_cpmm_accounts(instruction: &Instruction) -> (r: Result<CpmmAccounts, DecodeError>)
    ensures
        r == cpmm_accounts(*instruction),
{
    let count: usize = instruction.accounts.len();
    if count < CPMM_ACCOUNTS_READ {
        return Err(DecodeError::InvalidAccountShape { count });
    }
    let market: Address = match instruction.account(constants::CPMM_MARKET_POSITION) {
        Some(key) => key,
        None => {
            return Err(
                DecodeError::UnresolvedAccount {
                    index: instruction.accounts[constants::CPMM_MARKET_POSITION],
                },
            );
        },
    };
    let input_mint: Address = match instruction.account(constants::CPMM_INPUT_MINT_POSITION) {
        Some(key) => key,
        None => {
            return Err(
                DecodeError::UnresolvedAccount {
                    index: instruction.accounts[constants::CPMM_INPUT_MINT_POSITION],
                },
            );
        },
    };
    let output_mint: Address = match instruction.account(constants::CPMM_OUTPUT_MINT_POSITION) {
        Some(key) => key,
        None => {
            return Err(
                DecodeError::UnresolvedAccount {
                    index: instruction.accounts[constants::CPMM_OUTPUT_MINT_POSITION],
                },
            );
        },
    };
    let fee_config: Address = match instruction.account(constants::CPMM_FEE_CONFIG_POSITION) {
        Some(key) => key,
        None => {
            return Err(
                DecodeError::UnresolvedAccount {
                    index: instruction.accounts[constants::CPMM_FEE_CONFIG_POSITION],
                },
            );
        },
    };
    Ok(
        CpmmAccounts {
            fee_config,
            market,
            input_vault: instruction.accounts[constants::CPMM_INPUT_VAULT_POSITION],
            output_vault: instruction.accounts[constants::CPMM_OUTPUT_VAULT_POSITION],
            input_mint,
            output_mint,
        },
    )
}

/// Decodes a swap on Raydium CPMM from its accounts, the two token
/// transfers that follow it and the texts by which its mints are ordered.
/// The trade is booked in the running balances, the fee fraction comes from
/// the fee configuration, and the pool is priced at its balances after the
/// trade.
pub fn decode_raydium_cpmm_swap(
    accounts: &CpmmAccounts,
    transfers: &[Instruction],
    running_token_balances: &mut HashMap<u8, u64>,
    fee_config: &Vec<FeeConfigEntry>,
    input_text: &[u8],
    output_text: &[u8],
    block_time: u64,
    slot: u64,
    index: u64,
    atomic_instruction_index: u8,
    signers: &Signers,
    signature: &Signature,
) -> (r: Result<SwapTx, DecodeError>)
    ensures
        final(running_token_balances)@ == cpmm_decoded_with(
            *accounts,
            transfers@,
            old(running_token_balances)@,
            fee_config@,
            input_text@,
            output_text@,
            provenance_of(block_time, slot, index, atomic_instruction_index, *signature, signers@),
        ).0,
        swap_result_view(r) == cpmm_decoded_with(
            *accounts,
            transfers@,
            old(running_token_balances)@,
            fee_config@,
            input_text@,
            output_text@,
            provenance_of(block_time, slot, index, atomic_instruction_index, *signature, signers@),
        ).1,
{
    let amounts: (u64, u64) = match read_transfer_amounts(transfers, Pools::RaydiumCpmm) {
        Ok(amounts) => amounts,
        Err(error) => {
            return Err(error);
        },
    };
    match settle(
        running_token_balances,
        accounts.input_vault,
        amounts.0,
        accounts.output_vault,
        amounts.1,
    ) {
        Ok(()) => {},
        Err(error) => {
            return Err(error);
        },
    }
    let direction: SwapDirection;
    let token_a_address: Address;
    let token_b_address: Address;
    let vault_a: u8;
    let vault_b: u8;
    if lexicographically_less(input_text, output_text) {
        token_a_address = accounts.input_mint;
        vault_a = accounts.input_vault;
        token_b_address = accounts.output_mint;
        vault_b = accounts.output_vault;
        direction = SwapDirection::AToB;
    } else {
        token_a_address = accounts.output_mint;
        vault_a = accounts.output_vault;
        token_b_address = accounts.input_mint;
        vault_b = accounts.input_vault;
        direction = SwapDirection::BToA;
    }
    let fee_fraction_lp: u64 = match lookup_fee(fee_config, &accounts.fee_config) {
        Some(fee) => fee,
        None => {
            return Err(DecodeError::MissingFeeConfig { account: accounts.fee_config });
        },
    };
    let quote: PoolQuote = match quote(running_token_balances, vault_a, vault_b) {
        Ok(quote) => quote,
        Err(error) => {
            return Err(error);
        },
    };
    Ok(
        SwapTx {
            pool: Pools::RaydiumCpmm,
            direction,
            block_time,
            slot,
            index,
            atomic_instruction_index,
            fee_fraction_lp,
            swapped_amount_in: amounts.0,
            swapped_amount_received: amounts.1,
            pool_token_a_vault_amount: quote.vault_a_amount,
            pool_token_b_vault_amount: quote.vault_b_amount,
            price_a_b_lp: quote.price_a_b,
            price_b_a_lp: quote.price_b_a,
            token_a_address,
            token_b_address,
            market_address: accounts.market,
            signature: *signature,
            signers: signers.copy(),
        },
    )
}

/// Decodes a swap on Raydium CPMM from the swap instruction and the two
/// token transfers that follow it. The mint whose Base58 text is the
/// smaller in lexicographic order is token A, whichever side was sent in.
pub fn process_raydium_cpmm_swap_instruction(
    instruction: &Instruction,
    transfers: &[Instruction],
    running_token_balances: &mut HashMap<u8, u64>,
    fee_config: &Vec<FeeConfigEntry>,
    block_time: u64,
    slot: u64,
    index: u64,
    atomic_instruction_index: u8,
    signers: &Signers,
    signature: &Signature,
) -> (r: Result<SwapTx, DecodeError>)
    ensures
        final(running_token_balances)@ == cpmm_decoded(
            *instruction,
            transfers@,
            old(running_token_balances)@,
            fee_config@,
            provenance_of(block_time, slot, index, atomic_instruction_index, *signature, signers@),
        ).0,
        swap_result_view(r) == cpmm_decoded(
            *instruction,
            transfers@,
            old(running_token_balances)@,
            fee_config@,
            provenance_of(block_time, slot, index, atomic_instruction_index, *signature, signers@),
        ).1,
{
    let accounts: CpmmAccounts = match read_cpmm_accounts(instruction) {
        Ok(accounts) => accounts,
        Err(error) => {
            return Err(error);
        },
    };
    let input_text: Vec<u8> = base58_encode(&accounts.input_mint.bytes);
    let output_text: Vec<u8> = base58_encode(&accounts.output_mint.bytes);
    decode_raydium_cpmm_swap(
        &accounts,
        transfers,
        running_token_balances,
        fee_config,
        input_text.as_slice(),
        output_text.as_slice(),
        block_time,
        slot,
        index,
        atomic_instruction_index,
        signers,
        signature,
    )
}

} // verus!
