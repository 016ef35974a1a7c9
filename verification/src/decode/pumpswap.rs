//! Swaps on the Pumpswap AMM.

use vstd::prelude::*;
use vstd::slice::slice_subrange;
use crate::address::Address;
use crate::address::Signature;
use crate::constants;
use crate::decode::common::PoolQuote;
use crate::decode::common::quote_balances;
use crate::decode::common::quoted_balances;
use crate::math::difference;
use crate::math::difference_of;
use crate::math::fee_fraction;
use crate::math::fee_fraction_of;
use crate::math::sum;
use crate::math::sum_of;
use crate::protocol_idls::pumpswap::PumpswapBuyEventIdlOld;
use crate::protocol_idls::pumpswap::PumpswapSellEventIdl;
use crate::types::DecodeError;
use crate::types::Instruction;
use crate::types::Pools;
use crate::types::Provenance;
use crate::types::SwapDirection;
use crate::types::SwapTx;
use crate::types::SwapTxView;
use crate::types::provenance_of;
use crate::types::swap_result_view;
use crate::signers::Signers;

verus! {

/// The number of accounts that the decoder reads from a swap's list.
pub const PUMPSWAP_ACCOUNTS_READ: usize = 5;

/// What a swap's account list names.
#[derive(Clone, Copy, Debug)]
pub struct PumpswapAccounts {
    pub market: Address,
    pub token_a: Address,
    pub token_b: Address,
}

/// The amounts of a trade and the pool's balances after it.
#[derive(Clone, Copy, Debug)]
pub struct PumpswapTrade {
    pub amount_in: u64,
    pub amount_received: u64,
    pub vault_a_amount: u64,
    pub vault_b_amount: u64,
    pub fee_fraction: u64,
}

/// The token and market addresses, at the positions 3, 4 and 0 of the
/// account list.
pub open spec fn pumpswap_accounts(instruction: Instruction) -> Result<
    PumpswapAccounts,
    DecodeError,
> {
    if instruction.accounts@.len() < PUMPSWAP_ACCOUNTS_READ {
        Err(DecodeError::InvalidAccountShape { count: instruction.accounts@.len() as usize })
    } else if instruction.account_key(constants::PUMPSWAP_TOKEN_A_POSITION as int) is None {
        Err(
            DecodeError::UnresolvedAccount {
                index: instruction.accounts@[constants::PUMPSWAP_TOKEN_A_POSITION as int],
            },
        )
    } else if instruction.account_key(constants::PUMPSWAP_TOKEN_B_POSITION as int) is None {
        Err(
            DecodeError::UnresolvedAccount {
                index: instruction.accounts@[constants::PUMPSWAP_TOKEN_B_POSITION as int],
            },
        )
    } else if instruction.account_key(constants::PUMPSWAP_MARKET_POSITION as int) is None {
        Err(
            DecodeError::UnresolvedAccount {
                index: instruction.accounts@[constants::PUMPSWAP_MARKET_POSITION as int],
            },
        )
    } else {
        Ok(
            PumpswapAccounts {
                market: instruction.account_key(
                    constants::PUMPSWAP_MARKET_POSITION as int,
                )->Some_0,
                token_a: instruction.account_key(
                    constants::PUMPSWAP_TOKEN_A_POSITION as int,
                )->Some_0,
                token_b: instruction.account_key(
                    constants::PUMPSWAP_TOKEN_B_POSITION as int,
                )->Some_0,
            },
        )
    }
}

/// The fee fraction of `fee` charged on `charged_on`, which is zero where
/// nothing was charged on.
pub open spec fn pumpswap_fee_fraction(fee: int, charged_on: int) -> Result<u64, DecodeError> {
    if charged_on == 0 {
        Ok(0)
    } else {
        fee_fraction_of(fee, charged_on)
    }
}

/// Whether a buy event may have `length` bytes: the old layout, the current
/// one, or that of a buy with an exact quote amount.
pub open spec fn pumpswap_buy_length(length: nat) -> bool {
    ||| length == constants::PUMPSWAP_BUY_EVENT_LEN_OLD
    ||| length == constants::PUMPSWAP_BUY_EVENT_LEN_CURRENT
    ||| length == constants::PUMPSWAP_BUY_EVENT_LEN_EXACT_QUOTE_IN
}

/// What a sell event says of the trade. The event's reserves are those
/// before the trade: the pool gains what was sent in, and pays what the
/// user received, the protocol fee and the creator fee. The fee is charged
/// on what the user received and the fees together.
pub open spec fn pumpswap_sold(trade: PumpswapSellEventIdl) -> Result<PumpswapTrade, DecodeError> {
    let vault_a = sum_of(trade.pool_base_token_reserves, trade.base_amount_in);
    let paid = trade.user_quote_amount_out + trade.protocol_fee + trade.coin_creator_fee;
    let total_fee = trade.lp_fee + trade.protocol_fee + trade.coin_creator_fee;
    let fee = pumpswap_fee_fraction(total_fee, trade.user_quote_amount_out + total_fee);
    if vault_a is Err {
        Err(vault_a->Err_0)
    } else if trade.pool_quote_token_reserves < paid {
        Err(DecodeError::ArithmeticOverflow)
    } else if fee is Err {
        Err(fee->Err_0)
    } else {
        Ok(
            PumpswapTrade {
                amount_in: trade.base_amount_in,
                amount_received: trade.user_quote_amount_out,
                vault_a_amount: vault_a->Ok_0,
                vault_b_amount: (trade.pool_quote_token_reserves - paid) as u64,
                fee_fraction: fee->Ok_0,
            },
        )
    }
}

/// What a buy event says of the trade. The amount sent in is the quote
/// amount of a buy with an exact quote amount, and the user's quote amount
/// of any other. The event's reserves are those before the trade: the pool
/// gains the quote amount with the LP fee and pays the base amount. The fee
/// is charged on the amount sent in.
pub open spec fn pumpswap_bought(trade: PumpswapBuyEventIdlOld, exact_quote_in: bool) -> Result<
    PumpswapTrade,
    DecodeError,
> {
    let amount_in = if exact_quote_in {
        trade.quote_amount_in
    } else {
        trade.user_quote_amount_in
    };
    let vault_b = sum_of(trade.pool_quote_token_reserves, trade.quote_amount_in_with_lp_fee);
    let vault_a = difference_of(trade.pool_base_token_reserves, trade.base_amount_out);
    let total_fee = trade.lp_fee + trade.protocol_fee + trade.coin_creator_fee;
    let fee = pumpswap_fee_fraction(total_fee, amount_in as int);
    if vault_b is Err {
        Err(vault_b->Err_0)
    } else if vault_a is Err {
        Err(vault_a->Err_0)
    } else if fee is Err {
        Err(fee->Err_0)
    } else {
        Ok(
            PumpswapTrade {
                amount_in,
                amount_received: trade.base_amount_out,
                vault_a_amount: vault_a->Ok_0,
                vault_b_amount: vault_b->Ok_0,
                fee_fraction: fee->Ok_0,
            },
        )
    }
}

/// What the event instruction of a swap says of the trade. A sale of token
/// A has a sell event of one fixed layout. A purchase has a buy event of one
/// of three lengths, of which the first 401 bytes are read.
pub open spec fn pumpswap_trade(data: Seq<u8>, direction: SwapDirection) -> Result<
    PumpswapTrade,
    DecodeError,
> {
    let unrecognized = Err::<PumpswapTrade, DecodeError>(
        DecodeError::UnrecognizedEventLayout {
            protocol: Pools::PumpswapAmm,
            observed_length: data.len() as usize,
        },
    );
    if direction == SwapDirection::AToB {
        if PumpswapSellEventIdl::recognizes(data) {
            pumpswap_sold(PumpswapSellEventIdl::of(data))
        } else {
            unrecognized
        }
    } else {
        let shared = data.subrange(0, constants::PUMPSWAP_BUY_EVENT_LEN_OLD as int);
        if pumpswap_buy_length(data.len()) && PumpswapBuyEventIdlOld::recognizes(shared) {
            pumpswap_bought(
                PumpswapBuyEventIdlOld::of(shared),
                data.len() == constants::PUMPSWAP_BUY_EVENT_LEN_EXACT_QUOTE_IN,
            )
        } else {
            unrecognized
        }
    }
}

/// The event of a trade whose accounts and amounts are known, or the reason
/// why there is none.
pub open spec fn pumpswap_event(
    accounts: PumpswapAccounts,
    trade: PumpswapTrade,
    direction: SwapDirection,
    provenance: Provenance,
) -> Result<SwapTxView, DecodeError> {
    match quoted_balances(trade.vault_a_amount, trade.vault_b_amount) {
        Err(error) => Err(error),
        Ok(quote) => Ok(
            SwapTxView {
                pool: Pools::PumpswapAmm,
                direction,
                block_time: provenance.block_time,
                slot: provenance.slot,
                index: provenance.index,
                atomic_instruction_index: provenance.atomic_instruction_index,
                fee_fraction_lp: trade.fee_fraction,
                swapped_amount_in: trade.amount_in,
                swapped_amount_received: trade.amount_received,
                pool_token_a_vault_amount: quote.vault_a_amount,
                pool_token_b_vault_amount: quote.vault_b_amount,
                price_a_b_lp: quote.price_a_b,
                price_b_a_lp: quote.price_b_a,
                token_a_address: accounts.token_a,
                token_b_address: accounts.token_b,
                market_address: accounts.market,
                signature: provenance.signature,
                signers: provenance.signers,
            },
        ),
    }
}

/// The event of a swap and its event instruction, or the reason why there
/// is none.
pub open spec fn pumpswap_decoded(
    instruction: Instruction,
    swap_event_instruction: Instruction,
    direction: SwapDirection,
    provenance: Provenance,
) -> Result<SwapTxView, DecodeError> {
    match pumpswap_accounts(instruction) {
        Err(error) => Err(error),
        Ok(accounts) => match pumpswap_trade(swap_event_instruction.data@, direction) {
            Err(error) => Err(error),
            Ok(trade) => pumpswap_event(accounts, trade, direction, provenance),
        },
    }
}

/// Reads the token and market addresses of a swap.
pub fn read_pumpswap_accounts(instruction: &Instruction) -> (r: Result<
    PumpswapAccounts,
    DecodeError,
>)
    ensures
        r == pumpswap_accounts(*instruction),
{
    let count: usize = instruction.accounts.len();
    if count < PUMPSWAP_ACCOUNTS_READ {
        return Err(DecodeError::InvalidAccountShape { count });
    }
    let token_a: Address = match instruction.account(constants::PUMPSWAP_TOKEN_A_POSITION) {
        Some(key) => key,
        None => {
            return Err(
                DecodeError::UnresolvedAccount {
                    index: instruction.accounts[constants::PUMPSWAP_TOKEN_A_POSITION],
                },
            );
        },
    };
    let token_b: Address = match instruction.account(constants::PUMPSWAP_TOKEN_B_POSITION) {
        Some(key) => key,
        None => {
            return Err(
                DecodeError::UnresolvedAccount {
                    index: instruction.accounts[constants::PUMPSWAP_TOKEN_B_POSITION],
                },
            );
        },
    };
    let market: Address = match instruction.account(constants::PUMPSWAP_MARKET_POSITION) {
        Some(key) => key,
        None => {
            return Err(
                DecodeError::UnresolvedAccount {
                    index: instruction.accounts[constants::PUMPSWAP_MARKET_POSITION],
                },
            );
        },
    };
    Ok(PumpswapAccounts { market, token_a, token_b })
}

/// Computes a fee fraction that is zero where nothing was charged on.
fn guarded_fee_fraction(fee: u128, charged_on: u128) -> (r: Result<u64, DecodeError>)
    requires
        fee * constants::SCALE <= u128::MAX,
    ensures
        r == pumpswap_fee_fraction(fee as int, charged_on as int),
{
    if charged_on == 0 {
        Ok(0)
    } else {
        fee_fraction(fee, charged_on)
    }
}

/// Works out the trade that a sell event describes.
pub fn read_pumpswap_sell(trade: &PumpswapSellEventIdl) -> (r: Result<PumpswapTrade, DecodeError>)
    ensures
        r == pumpswap_sold(*trade),
{
    let vault_a_amount: u64 = match sum(trade.pool_base_token_reserves, trade.base_amount_in) {
        Ok(amount) => amount,
        Err(error) => {
            return Err(error);
        },
    };
    let paid: u128 = (trade.user_quote_amount_out as u128) + (trade.protocol_fee as u128) + (
    trade.coin_creator_fee as u128);
    if (trade.pool_quote_token_reserves as u128) < paid {
        return Err(DecodeError::ArithmeticOverflow);
    }
    let vault_b_amount: u64 = ((trade.pool_quote_token_reserves as u128) - paid) as u64;
    let total_fee: u128 = (trade.lp_fee as u128) + (trade.protocol_fee as u128) + (
    trade.coin_creator_fee as u128);
    let fee_fraction: u64 = match guarded_fee_fraction(
        total_fee,
        (trade.user_quote_amount_out as u128) + total_fee,
    ) {
        Ok(fee) => fee,
        Err(error) => {
            return Err(error);
        },
    };
    Ok(
        PumpswapTrade {
            amount_in: trade.base_amount_in,
            amount_received: trade.user_quote_amount_out,
            vault_a_amount,
            vault_b_amount,
            fee_fraction,
        },
    )
}

/// Works out the trade that a buy event describes.
pub fn read_pumpswap_buy(trade: &PumpswapBuyEventIdlOld, exact_quote_in: bool) -> (r: Result<
    PumpswapTrade,
    DecodeError,
>)
    ensures
        r == pumpswap_bought(*trade, exact_quote_in),
{
    let amount_in: u64 = if exact_quote_in {
        trade.quote_amount_in
    } else {
        trade.user_quote_amount_in
    };
    let vault_b_amount: u64 = match sum(
        trade.pool_quote_token_reserves,
        trade.quote_amount_in_with_lp_fee,
    ) {
        Ok(amount) => amount,
        Err(error) => {
            return Err(error);
        },
    };
    let vault_a_amount: u64 = match difference(
        trade.pool_base_token_reserves,
        trade.base_amount_out,
    ) {
        Ok(amount) => amount,
        Err(error) => {
            return Err(error);
        },
    };
    let total_fee: u128 = (trade.lp_fee as u128) + (trade.protocol_fee as u128) + (
    trade.coin_creator_fee as u128);
    let fee_fraction: u64 = match guarded_fee_fraction(total_fee, amount_in as u128) {
        Ok(fee) => fee,
        Err(error) => {
            return Err(error);
        },
    };
    Ok(
        PumpswapTrade {
            amount_in,
            amount_received: trade.base_amount_out,
            vault_a_amount,
            vault_b_amount,
            fee_fraction,
        },
    )
}

/// Reads the trade that the payload of an event instruction describes.
pub fn read_pumpswap_trade(data: &[u8], direction: SwapDirection) -> (r: Result<
    PumpswapTrade,
    DecodeError,
>)
    ensures
        r == pumpswap_trade(data@, direction),
{
    let event_len: usize = data.len();
    match direction {
        SwapDirection::AToB => match PumpswapSellEventIdl::try_from_slice(data) {
            Some(trade) => read_pumpswap_sell(&trade),
            None => Err(
                DecodeError::UnrecognizedEventLayout {
                    protocol: Pools::PumpswapAmm,
                    observed_length: event_len,
                },
            ),
        },
        SwapDirection::BToA => {
            if event_len == constants::PUMPSWAP_BUY_EVENT_LEN_CURRENT || event_len
                == constants::PUMPSWAP_BUY_EVENT_LEN_OLD || event_len
                == constants::PUMPSWAP_BUY_EVENT_LEN_EXACT_QUOTE_IN {
                let shared: &[u8] = slice_subrange(data, 0, constants::PUMPSWAP_BUY_EVENT_LEN_OLD);
                match PumpswapBuyEventIdlOld::try_from_slice(shared) {
                    Some(trade) => read_pumpswap_buy(
                        &trade,
                        event_len == constants::PUMPSWAP_BUY_EVENT_LEN_EXACT_QUOTE_IN,
                    ),
                    None => Err(
                        DecodeError::UnrecognizedEventLayout {
                            protocol: Pools::PumpswapAmm,
                            observed_length: event_len,
                        },
                    ),
                }
            } else {
                Err(
                    DecodeError::UnrecognizedEventLayout {
                        protocol: Pools::PumpswapAmm,
                        observed_length: event_len,
                    },
                )
            }
        },
    }
}

/// Decodes a swap on Pumpswap from the swap instruction, the event
/// instruction that belongs to it and the direction that the swap's
/// discriminator gave.
pub fn process_pumpswap_swap_instruction(
    instruction: &Instruction,
    swap_event_instruction: &Instruction,
    direction: SwapDirection,
    block_time: u64,
    slot: u64,
    index: u64,
    atomic_instruction_index: u8,
    signers: &Signers,
    signature: &Signature,
) -> (r: Result<SwapTx, DecodeError>)
    ensures
        swap_result_view(r) == pumpswap_decoded(
            *instruction,
            *swap_event_instruction,
            direction,
            provenance_of(block_time, slot, index, atomic_instruction_index, *signature, signers@),
        ),
{
    let accounts: PumpswapAccounts = match read_pumpswap_accounts(instruction) {
        Ok(accounts) => accounts,
        Err(error) => {
            return Err(error);
        },
    };
    let trade: PumpswapTrade = match read_pumpswap_trade(swap_event_instruction.data, direction) {
        Ok(trade) => trade,
        Err(error) => {
            return Err(error);
        },
    };
    let quote: PoolQuote = match quote_balances(trade.vault_a_amount, trade.vault_b_amount) {
        Ok(quote) => quote,
        Err(error) => {
            return Err(error);
        },
    };
    Ok(
        SwapTx {
            pool: Pools::PumpswapAmm,
            direction,
            block_time,
            slot,
            index,
            atomic_instruction_index,
            fee_fraction_lp: trade.fee_fraction,
            swapped_amount_in: trade.amount_in,
            swapped_amount_received: trade.amount_received,
            pool_token_a_vault_amount: quote.vault_a_amount,
            pool_token_b_vault_amount: quote.vault_b_amount,
            price_a_b_lp: quote.price_a_b,
            price_b_a_lp: quote.price_b_a,
            token_a_address: accounts.token_a,
            token_b_address: accounts.token_b,
            market_address: accounts.market,
            signature: *signature,
            signers: signers.copy(),
        },
    )
}

} // verus!
