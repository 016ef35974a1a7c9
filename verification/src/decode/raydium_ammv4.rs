//! Swaps on Raydium AMM v4.

use vstd::prelude::*;
use std::collections::HashMap;
use crate::address::Address;
use crate::address::Signature;
use crate::constants;
use crate::decode::common::PoolQuote;
use crate::decode::common::TRANSFER_DESTINATION_POSITION;
use crate::decode::common::quote;
use crate::decode::common::quoted;
use crate::decode::common::read_transfer_amounts;
use crate::decode::common::settle;
use crate::decode::common::settled;
use crate::decode::common::transfer_amounts;
use crate::tables::mint;
use crate::tables::mint_of;
use crate::types::DecodeError;
use crate::types::Instruction;
use crate::types::Pools;
use crate::types::Provenance;
use crate::types::SwapDirection;
use crate::types::SwapTx;
use crate::types::SwapTxView;
use crate::types::provenance_of;
use crate::types::swap_result_view;
use crate::signers::Signers;

verus! {

/// The number of accounts of the swap's shorter account list.
pub const AMMV4_ACCOUNTS_SHORT: usize = 17;

/// The number of accounts of the swap's longer account list.
pub const AMMV4_ACCOUNTS_LONG: usize = 18;

/// The position of vault A in the shorter account list; vault B follows it.
pub const AMMV4_VAULT_A_POSITION_SHORT: usize = 4;

/// The position of vault A in the longer account list; vault B follows it.
pub const AMMV4_VAULT_A_POSITION_LONG: usize = 5;

/// What a swap's account list names.
pub struct AmmV4Accounts {
    pub market: Address,
    pub vault_a: u8,
    pub vault_b: u8,
    pub token_a: Address,
    pub token_b: Address,
}

/// What a swap's two transfers say.
pub struct AmmV4Transfers {
    pub amount_in: u64,
    pub amount_out: u64,
    /// The account that the first transfer pays into.
    pub destination: u8,
}

/// The position of vault A in an account list of `count` accounts, where
/// the swap has a list of that length.
pub open spec fn ammv4_vault_a_position(count: nat) -> Option<int> {
    if count == AMMV4_ACCOUNTS_SHORT {
        Some(AMMV4_VAULT_A_POSITION_SHORT as int)
    } else if count == AMMV4_ACCOUNTS_LONG {
        Some(AMMV4_VAULT_A_POSITION_LONG as int)
    } else {
        None
    }
}

/// The market, the vaults and their mints. The vaults stand at positions 4
/// and 5 of a list of 17 accounts and at 5 and 6 of a list of 18; the mints
/// come from the mint table.
pub open spec fn ammv4_accounts(instruction: Instruction, ta_mint: Map<u8, Address>) -> Result<
    AmmV4Accounts,
    DecodeError,
> {
    match ammv4_vault_a_position(instruction.accounts@.len()) {
        None => Err(
            DecodeError::InvalidAccountShape { count: instruction.accounts@.len() as usize },
        ),
        Some(position) => {
            let vault_a = instruction.accounts@[position];
            let vault_b = instruction.accounts@[position + 1];
            if instruction.account_key(constants::AMMV4_MARKET_POSITION as int) is None {
                Err(
                    DecodeError::UnresolvedAccount {
                        index: instruction.accounts@[constants::AMMV4_MARKET_POSITION as int],
                    },
                )
            } else if mint_of(ta_mint, vault_a) is Err {
                Err(mint_of(ta_mint, vault_a)->Err_0)
            } else if mint_of(ta_mint, vault_b) is Err {
                Err(mint_of(ta_mint, vault_b)->Err_0)
            } else {
                Ok(
                    AmmV4Accounts {
                        market: instruction.account_key(
                            constants::AMMV4_MARKET_POSITION as int,
                        )->Some_0,
                        vault_a,
                        vault_b,
                        token_a: mint_of(ta_mint, vault_a)->Ok_0,
                        token_b: mint_of(ta_mint, vault_b)->Ok_0,
                    },
                )
            }
        },
    }
}

/// The amounts of the two transfers and the destination of the first.
pub open spec fn ammv4_transfers(transfers: Seq<Instruction>) -> Result<
    AmmV4Transfers,
    DecodeError,
> {
    match transfer_amounts(transfers, Pools::RaydiumAmmV4) {
        Err(error) => Err(error),
        Ok(amounts) => if transfers[0].accounts@.len() <= TRANSFER_DESTINATION_POSITION {
            Err(
                DecodeError::InvalidAccountShape {
                    count: transfers[0].accounts@.len() as usize,
                },
            )
        } else {
            Ok(
                AmmV4Transfers {
                    amount_in: amounts.0,
                    amount_out: amounts.1,
                    destination: transfers[0].accounts@[TRANSFER_DESTINATION_POSITION as int],
                },
            )
        },
    }
}

/// The direction of a swap: `AToB` where the first transfer pays into vault
/// A, `BToA` otherwise.
pub open spec fn ammv4_direction(accounts: AmmV4Accounts, moved: AmmV4Transfers) -> SwapDirection {
    if moved.destination == accounts.vault_a {
        SwapDirection::AToB
    } else {
        SwapDirection::BToA
    }
}

/// The vault that receives what was sent in.
pub open spec fn ammv4_receiving(accounts: AmmV4Accounts, moved: AmmV4Transfers) -> u8 {
    if moved.destination == accounts.vault_a {
        accounts.vault_a
    } else {
        accounts.vault_b
    }
}

/// The vault that pays what was received.
pub open spec fn ammv4_paying(accounts: AmmV4Accounts, moved: AmmV4Transfers) -> u8 {
    if moved.destination == accounts.vault_a {
        accounts.vault_b
    } else {
        accounts.vault_a
    }
}

/// The event of a swap whose accounts, transfers and prices are known.
pub open spec fn ammv4_event(
    accounts: AmmV4Accounts,
    moved: AmmV4Transfers,
    quote: PoolQuote,
    provenance: Provenance,
) -> SwapTxView {
    SwapTxView {
        pool: Pools::RaydiumAmmV4,
        direction: ammv4_direction(accounts, moved),
        block_time: provenance.block_time,
        slot: provenance.slot,
        index: provenance.index,
        atomic_instruction_index: provenance.atomic_instruction_index,
        fee_fraction_lp: constants::AMMV4_FEE_FRACTION,
        swapped_amount_in: moved.amount_in,
        swapped_amount_received: moved.amount_out,
        pool_token_a_vault_amount: quote.vault_a_amount,
        pool_token_b_vault_amount: quote.vault_b_amount,
        price_a_b_lp: quote.price_a_b,
        price_b_a_lp: quote.price_b_a,
        token_a_address: accounts.token_a,
        token_b_address: accounts.token_b,
        market_address: accounts.market,
        signature: provenance.signature,
        signers: provenance.signers,
    }
}

/// The balance table after a swap, and the swap's event or the reason why
/// there is none. The table changes only once accounts and transfers have
/// been read; the prices are those of the balances after the trade.
pub open spec fn ammv4_decoded(
    instruction: Instruction,
    transfers: Seq<Instruction>,
    ta_mint: Map<u8, Address>,
    table: Map<u8, u64>,
    provenance: Provenance,
) -> (Map<u8, u64>, Result<SwapTxView, DecodeError>) {
    match ammv4_accounts(instruction, ta_mint) {
        Err(error) => (table, Err(error)),
        Ok(accounts) => match ammv4_transfers(transfers) {
            Err(error) => (table, Err(error)),
            Ok(moved) => {
                let booked = settled(
                    table,
                    ammv4_receiving(accounts, moved),
                    moved.amount_in,
                    ammv4_paying(accounts, moved),
                    moved.amount_out,
                );
                match booked.1 {
                    Err(error) => (booked.0, Err(error)),
                    Ok(_) => match quoted(booked.0, accounts.vault_a, accounts.vault_b) {
                        Err(error) => (booked.0, Err(error)),
                        Ok(quote) => (
                            booked.0,
                            Ok(ammv4_event(accounts, moved, quote, provenance)),
                        ),
                    },
                }
            },
        },
    }
}

/// Reads the market, the vaults and their mints.
pub fn read_ammv4_accounts(instruction: &Instruction, ta_mint: &HashMap<u8, Address>) -> (r:
    Result<AmmV4Accounts, DecodeError>)
    ensures
        r == ammv4_accounts(*instruction, ta_mint@),
{
    let count: usize = instruction.accounts.len();
    let position: usize = if count == AMMV4_ACCOUNTS_SHORT {
        AMMV4_VAULT_A_POSITION_SHORT
    } else if count == AMMV4_ACCOUNTS_LONG {
        AMMV4_VAULT_A_POSITION_LONG
    } else {
        return Err(DecodeError::InvalidAccountShape { count });
    };
    let vault_a: u8 = instruction.accounts[position];
    let vault_b: u8 = instruction.accounts[position + 1];
    let market: Address = match instruction.account(constants::AMMV4_MARKET_POSITION) {
        Some(key) => key,
        None => {
            return Err(
                DecodeError::UnresolvedAccount {
                    index: instruction.accounts[constants::AMMV4_MARKET_POSITION],
                },
            );
        },
    };
    let token_a: Address = match mint(ta_mint, vault_a) {
        Ok(key) => key,
        Err(error) => {
            return Err(error);
        },
    };
    let token_b: Address = match mint(ta_mint, vault_b) {
        Ok(key) => key,
        Err(error) => {
            return Err(error);
        },
    };
    Ok(AmmV4Accounts { market, vault_a, vault_b, token_a, token_b })
}

/// Reads the amounts of the two transfers and the destination of the first.
pub fn read_ammv4_transfers(transfers: &[Instruction]) -> (r: Result<AmmV4Transfers, DecodeError>)
    ensures
        r == ammv4_transfers(transfers@),
{
    let amounts: (u64, u64) = match read_transfer_amounts(transfers, Pools::RaydiumAmmV4) {
        Ok(amounts) => amounts,
        Err(error) => {
            return Err(error);
        },
    };
    let first: &Instruction = &transfers[0];
    if first.accounts.len() <= TRANSFER_DESTINATION_POSITION {
        return Err(DecodeError::InvalidAccountShape { count: first.accounts.len() });
    }
    Ok(
        AmmV4Transfers {
            amount_in: amounts.0,
            amount_out: amounts.1,
            destination: first.accounts[TRANSFER_DESTINATION_POSITION],
        },
    )
}

/// Decodes a swap on Raydium AMM v4 from the swap instruction and the two
/// token transfers that follow it, books the trade in the running balances
/// and prices the pool at its balances after the trade.
///
/// The account list has 17 or 18 accounts; any other number is an
/// `InvalidAccountShape`. The fee fraction of every event is the fixed
/// 0.25%.
pub fn process_raydium_ammv4_swap_instruction(
    instruction: &Instruction,
    transfers: &[Instruction],
    ta_mint: &HashMap<u8, Address>,
    running_token_balances: &mut HashMap<u8, u64>,
    block_time: u64,
    slot: u64,
    index: u64,
    atomic_instruction_index: u8,
    signers: &Signers,
    signature: &Signature,
) -> (r: Result<SwapTx, DecodeError>)
    ensures
        final(running_token_balances)@ == ammv4_decoded(
            *instruction,
            transfers@,
            ta_mint@,
            old(running_token_balances)@,
            provenance_of(block_time, slot, index, atomic_instruction_index, *signature, signers@),
        ).0,
        swap_result_view(r) == ammv4_decoded(
            *instruction,
            transfers@,
            ta_mint@,
            old(running_token_balances)@,
            provenance_of(block_time, slot, index, atomic_instruction_index, *signature, signers@),
        ).1,
        instruction.accounts@.len() != 17 && instruction.accounts@.len() != 18 ==> r is Err
            && r->Err_0 == (DecodeError::InvalidAccountShape {
            count: instruction.accounts@.len() as usize,
        }),
        r is Ok ==> r->Ok_0.fee_fraction_lp == constants::AMMV4_FEE_FRACTION,
{
    let accounts: AmmV4Accounts = match read_ammv4_accounts(instruction, ta_mint) {
        Ok(accounts) => accounts,
        Err(error) => {
            return Err(error);
        },
    };
    let moved: AmmV4Transfers = match read_ammv4_transfers(transfers) {
        Ok(moved) => moved,
        Err(error) => {
            return Err(error);
        },
    };
    let direction: SwapDirection;
    let receiving: u8;
    let paying: u8;
    if moved.destination == accounts.vault_a {
        direction = SwapDirection::AToB;
        receiving = accounts.vault_a;
        paying = accounts.vault_b;
    } else {
        direction = SwapDirection::BToA;
        receiving = accounts.vault_b;
        paying = accounts.vault_a;
    }
    match settle(running_token_balances, receiving, moved.amount_in, paying, moved.amount_out) {
        Ok(()) => {},
        Err(error) => {
            return Err(error);
        },
    }
    let quote: PoolQuote = match quote(running_token_balances, accounts.vault_a, accounts.vault_b) {
        Ok(quote) => quote,
        Err(error) => {
            return Err(error);
        },
    };
    Ok(
        SwapTx {
            pool: Pools::RaydiumAmmV4,
            direction,
            block_time,
            slot,
            index,
            atomic_instruction_index,
            fee_fraction_lp: constants::AMMV4_FEE_FRACTION,
            swapped_amount_in: moved.amount_in,
            swapped_amount_received: moved.amount_out,
            pool_token_a_vault_amount: quote.vault_a_amount,
            pool_token_b_vault_amount: quote.vault_b_amount,
            price_a_b_lp: quote.price_a_b,
            price_b_a_lp: quote.price_b_a,
            token_a_address: accounts.token_a,
            token_b_address: accounts.token_b,
            market_address: accounts.market,
            signature: *signature,
            signers: signers.copy(),
        },
    )
}

} // verus!
