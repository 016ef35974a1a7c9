//! Swaps on Raydium Launchpad.

use vstd::prelude::*;
use crate::address::Address;
use crate::address::Signature;
use crate::constants;
use crate::decode::common::PoolQuote;
use crate::decode::common::quote_balances;
use crate::decode::common::quoted_balances;
use crate::math::difference;
use crate::math::difference_of;
use crate::math::fee_fraction;
use crate::math::fee_fraction_of;
use crate::math::sum;
use crate::math::sum_of;
use crate::protocol_idls::raydium::LaunchpadTradeEventIdl;
use crate::types::DecodeError;
use crate::types::Instruction;
use crate::types::Pools;
use crate::types::Provenance;
use crate::types::SwapDirection;
use crate::types::SwapTx;
use crate::types::SwapTxView;
use crate::types::provenance_of;
use crate::types::swap_result_view;
use crate::signers::Signers;

verus! {

/// The number of accounts that the decoder reads from a swap's list.
pub const LAUNCHPAD_ACCOUNTS_READ: usize = 11;

/// What a swap's account list names.
#[derive(Clone, Copy, Debug)]
pub struct LaunchpadAccounts {
    pub market: Address,
    pub token_a: Address,
    pub token_b: Address,
}

/// The token and market addresses, at the positions 9, 10 and 4 of the
/// account list.
pub open spec fn launchpad_accounts(instruction: Instruction) -> Result<
    LaunchpadAccounts,
    DecodeError,
> {
    if instruction.accounts@.len() < LAUNCHPAD_ACCOUNTS_READ {
        Err(DecodeError::InvalidAccountShape { count: instruction.accounts@.len() as usize })
    } else if instruction.account_key(constants::LAUNCHPAD_TOKEN_A_POSITION as int) is None {
        Err(
            DecodeError::UnresolvedAccount {
                index: instruction.accounts@[constants::LAUNCHPAD_TOKEN_A_POSITION as int],
            },
        )
    } else if instruction.account_key(constants::LAUNCHPAD_TOKEN_B_POSITION as int) is None {
        Err(
            DecodeError::UnresolvedAccount {
                index: instruction.accounts@[constants::LAUNCHPAD_TOKEN_B_POSITION as int],
            },
        )
    } else if instruction.account_key(constants::LAUNCHPAD_MARKET_POSITION as int) is None {
        Err(
            DecodeError::UnresolvedAccount {
                index: instruction.accounts@[constants::LAUNCHPAD_MARKET_POSITION as int],
            },
        )
    } else {
        Ok(
            LaunchpadAccounts {
                market: instruction.account_key(
                    constants::LAUNCHPAD_MARKET_POSITION as int,
                )->Some_0,
                token_a: instruction.account_key(
                    constants::LAUNCHPAD_TOKEN_A_POSITION as int,
                )->Some_0,
                token_b: instruction.account_key(
                    constants::LAUNCHPAD_TOKEN_B_POSITION as int,
                )->Some_0,
            },
        )
    }
}

/// The trade event that an instruction's payload holds.
pub open spec fn launchpad_trade_event(event: Instruction) -> Result<
    LaunchpadTradeEventIdl,
    DecodeError,
> {
    if LaunchpadTradeEventIdl::recognizes(event.data@) {
        Ok(LaunchpadTradeEventIdl::of(event.data@))
    } else {
        Err(
            DecodeError::UnrecognizedEventLayout {
                protocol: Pools::RaydiumLaunchpad,
                observed_length: event.data@.len() as usize,
            },
        )
    }
}

/// The sum of the four fees of a trade.
pub open spec fn launchpad_total_fee(trade: LaunchpadTradeEventIdl) -> int {
    trade.protocol_fee + trade.platform_fee + trade.share_fee + trade.creator_fee
}

/// What the fee of a trade is charged on: on a sale of token A, the amount
/// received before the fee was taken; on a purchase, the amount sent in.
pub open spec fn launchpad_fee_base(trade: LaunchpadTradeEventIdl, direction: SwapDirection) -> int {
    if direction == SwapDirection::AToB {
        trade.amount_out + launchpad_total_fee(trade)
    } else {
        trade.amount_in as int
    }
}

/// The event of a trade, or the reason why there is none. The pool's token A
/// balance is the virtual base less the real base after the trade, its
/// token B balance the virtual quote plus the real quote after the trade.
pub open spec fn launchpad_event(
    accounts: LaunchpadAccounts,
    trade: LaunchpadTradeEventIdl,
    direction: SwapDirection,
    provenance: Provenance,
) -> Result<SwapTxView, DecodeError> {
    let fee = fee_fraction_of(launchpad_total_fee(trade), launchpad_fee_base(trade, direction));
    let vault_a = difference_of(trade.virtual_base, trade.real_base_after);
    let vault_b = sum_of(trade.virtual_quote, trade.real_quote_after);
    if fee is Err {
        Err(fee->Err_0)
    } else if vault_a is Err {
        Err(vault_a->Err_0)
    } else if vault_b is Err {
        Err(vault_b->Err_0)
    } else {
        match quoted_balances(vault_a->Ok_0, vault_b->Ok_0) {
            Err(error) => Err(error),
            Ok(quote) => Ok(
                SwapTxView {
                    pool: Pools::RaydiumLaunchpad,
                    direction,
                    block_time: provenance.block_time,
                    slot: provenance.slot,
                    index: provenance.index,
                    atomic_instruction_index: provenance.atomic_instruction_index,
                    fee_fraction_lp: fee->Ok_0,
                    swapped_amount_in: trade.amount_in,
                    swapped_amount_received: trade.amount_out,
                    pool_token_a_vault_amount: quote.vault_a_amount,
                    pool_token_b_vault_amount: quote.vault_b_amount,
                    price_a_b_lp: quote.price_a_b,
                    price_b_a_lp: quote.price_b_a,
                    token_a_address: accounts.token_a,
                    token_b_address: accounts.token_b,
                    market_address: accounts.market,
                    signature: provenance.signature,
                    signers: provenance.signers,
                },
            ),
        }
    }
}

/// The event of a swap and its trade event instruction, or the reason why
/// there is none.
pub open spec fn launchpad_decoded(
    instruction: Instruction,
    event: Instruction,
    direction: SwapDirection,
    provenance: Provenance,
) -> Result<SwapTxView, DecodeError> {
    match launchpad_accounts(instruction) {
        Err(error) => Err(error),
        Ok(accounts) => match launchpad_trade_event(event) {
            Err(error) => Err(error),
            Ok(trade) => launchpad_event(accounts, trade, direction, provenance),
        },
    }
}

/// Reads the token and market addresses of a swap.
pub fn read_launchpad_accounts(instruction: &Instruction) -> (r: Result<
    LaunchpadAccounts,
    DecodeError,
>)
    ensures
        r == launchpad_accounts(*instruction),
{
    let count: usize = instruction.accounts.len();
    if count < LAUNCHPAD_ACCOUNTS_READ {
        return Err(DecodeError::InvalidAccountShape { count });
    }
    let token_a: Address = match instruction.account(constants::LAUNCHPAD_TOKEN_A_POSITION) {
        Some(key) => key,
        None => {
            return Err(
                DecodeError::UnresolvedAccount {
                    index: instruction.accounts[constants::LAUNCHPAD_TOKEN_A_POSITION],
                },
            );
        },
    };
    let token_b: Address = match instruction.account(constants::LAUNCHPAD_TOKEN_B_POSITION) {
        Some(key) => key,
        None => {
            return Err(
                DecodeError::UnresolvedAccount {
                    index: instruction.accounts[constants::LAUNCHPAD_TOKEN_B_POSITION],
                },
            );
        },
    };
    let market: Address = match instruction.account(constants::LAUNCHPAD_MARKET_POSITION) {
        Some(key) => key,
        None => {
            return Err(
                DecodeError::UnresolvedAccount {
                    index: instruction.accounts[constants::LAUNCHPAD_MARKET_POSITION],
                },
            );
        },
    };
    Ok(LaunchpadAccounts { market, token_a, token_b })
}

/// Decodes a swap on Raydium Launchpad from the swap instruction, the trade
/// event that follows it and the direction that the swap's discriminator
/// gave.
pub fn process_raydium_launchpad_swap_instruction(
    instruction: &Instruction,
    event: &Instruction,
    direction: SwapDirection,
    block_time: u64,
    slot: u64,
    index: u64,
    atomic_instruction_index: u8,
    signers: &Signers,
    signature: &Signature,
) -> (r: Result<SwapTx, DecodeError>)
    ensures
        swap_result_view(r) == launchpad_decoded(
            *instruction,
            *event,
            direction,
            provenance_of(block_time, slot, index, atomic_instruction_index, *signature, signers@),
        ),
{
    let accounts: LaunchpadAccounts = match read_launchpad_accounts(instruction) {
        Ok(accounts) => accounts,
        Err(error) => {
            return Err(error);
        },
    };
    let trade: LaunchpadTradeEventIdl = match LaunchpadTradeEventIdl::try_from_slice(event.data) {
        Some(trade) => trade,
        None => {
            return Err(
                DecodeError::UnrecognizedEventLayout {
                    protocol: Pools::RaydiumLaunchpad,
                    observed_length: event.data.len(),
                },
            );
        },
    };
    let total_fee: u128 = (trade.protocol_fee as u128) + (trade.platform_fee as u128) + (
    trade.share_fee as u128) + (trade.creator_fee as u128);
    let fee_base: u128 = match direction {
        SwapDirection::AToB => (trade.amount_out as u128) + total_fee,
        SwapDirection::BToA => trade.amount_in as u128,
    };
    let fee_fraction_lp: u64 = match fee_fraction(total_fee, fee_base) {
        Ok(fee) => fee,
        Err(error) => {
            return Err(error);
        },
    };
    let vault_a: u64 = match difference(trade.virtual_base, trade.real_base_after) {
        Ok(amount) => amount,
        Err(error) => {
            return Err(error);
        },
    };
    let vault_b: u64 = match sum(trade.virtual_quote, trade.real_quote_after) {
        Ok(amount) => amount,
        Err(error) => {
            return Err(error);
        },
    };
    let quote: PoolQuote = match quote_balances(vault_a, vault_b) {
        Ok(quote) => quote,
        Err(error) => {
            return Err(error);
        },
    };
    Ok(
        SwapTx {
            pool: Pools::RaydiumLaunchpad,
            direction,
            block_time,
            slot,
            index,
            atomic_instruction_index,
            fee_fraction_lp,
            swapped_amount_in: trade.amount_in,
            swapped_amount_received: trade.amount_out,
            pool_token_a_vault_amount: quote.vault_a_amount,
            pool_token_b_vault_amount: quote.vault_b_amount,
            price_a_b_lp: quote.price_a_b,
            price_b_a_lp: quote.price_b_a,
            token_a_address: accounts.token_a,
            token_b_address: accounts.token_b,
            market_address: accounts.market,
            signature: *signature,
            signers: signers.copy(),
        },
    )
}

} // verus!
