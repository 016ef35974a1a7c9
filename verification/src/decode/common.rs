//! What the decoders share: the companion transfers of a swap, the update
//! of the balance table and the prices of a pool.

use vstd::prelude::*;
use std::collections::HashMap;
use crate::bytes::le_value;
use crate::bytes::read_u64_le;
use crate::math::price;
use crate::math::price_of;
use crate::tables::balance;
use crate::tables::balance_of;
use crate::tables::credit;
use crate::tables::credited;
use crate::tables::debit;
use crate::tables::debited;
use crate::types::DecodeError;
use crate::types::Instruction;
use crate::types::Pools;

verus! {

/// The offset of the amount in a token transfer's payload.
pub const TRANSFER_AMOUNT_OFFSET: usize = 1;

/// The length that a token transfer's payload has at least.
pub const TRANSFER_MIN_DATA_LEN: usize = 9;

/// The position of the destination in a token transfer's account list.
pub const TRANSFER_DESTINATION_POSITION: usize = 1;

/// The vault balances of a pool after a trade, and its two prices.
pub struct PoolQuote {
    pub vault_a_amount: u64,
    pub vault_b_amount: u64,
    pub price_a_b: u128,
    pub price_b_a: u128,
}

/// The amount that a token transfer moves: the 8 bytes after the first of
/// its payload.
pub open spec fn transfer_amount(transfer: Instruction, protocol: Pools) -> Result<
    u64,
    DecodeError,
> {
    if transfer.data@.len() < TRANSFER_MIN_DATA_LEN {
        Err(
            DecodeError::UnrecognizedEventLayout {
                protocol,
                observed_length: transfer.data@.len() as usize,
            },
        )
    } else {
        Ok(le_value(transfer.data@, TRANSFER_AMOUNT_OFFSET as int, 8) as u64)
    }
}

/// The amounts of the two transfers that follow a swap: the first moves
/// what was sent in, the second what was received.
pub open spec fn transfer_amounts(transfers: Seq<Instruction>, protocol: Pools) -> Result<
    (u64, u64),
    DecodeError,
> {
    if transfers.len() < 2 {
        Err(DecodeError::MissingCompanionInstruction { protocol })
    } else if transfer_amount(transfers[0], protocol) is Err {
        Err(transfer_amount(transfers[0], protocol)->Err_0)
    } else if transfer_amount(transfers[1], protocol) is Err {
        Err(transfer_amount(transfers[1], protocol)->Err_0)
    } else {
        Ok(
            (
                transfer_amount(transfers[0], protocol)->Ok_0,
                transfer_amount(transfers[1], protocol)->Ok_0,
            ),
        )
    }
}

/// The balance table after a trade paid `amount_in` into `receiving` and
/// `amount_out` out of `paying`, and whether both balances stayed in range.
/// The payment in is booked first, and stays booked where the payment out
/// fails.
pub open spec fn settled(
    table: Map<u8, u64>,
    receiving: u8,
    amount_in: u64,
    paying: u8,
    amount_out: u64,
) -> (Map<u8, u64>, Result<(), DecodeError>) {
    match credited(table, receiving, amount_in) {
        None => (table, Err(DecodeError::ArithmeticOverflow)),
        Some(with_input) => match debited(with_input, paying, amount_out) {
            None => (with_input, Err(DecodeError::ArithmeticOverflow)),
            Some(after) => (after, Ok(())),
        },
    }
}

/// The balances of the two vaults and the prices between them.
pub open spec fn quoted(table: Map<u8, u64>, vault_a: u8, vault_b: u8) -> Result<
    PoolQuote,
    DecodeError,
> {
    if balance_of(table, vault_a) is Err {
        Err(balance_of(table, vault_a)->Err_0)
    } else if balance_of(table, vault_b) is Err {
        Err(balance_of(table, vault_b)->Err_0)
    } else {
        quoted_balances(balance_of(table, vault_a)->Ok_0, balance_of(table, vault_b)->Ok_0)
    }
}

/// The prices between two vault balances: each balance per unit of the
/// other. An empty vault has no price.
pub open spec fn quoted_balances(vault_a_amount: u64, vault_b_amount: u64) -> Result<
    PoolQuote,
    DecodeError,
> {
    if vault_a_amount == 0 || vault_b_amount == 0 {
        Err(DecodeError::ArithmeticDivisionByZero)
    } else {
        Ok(
            PoolQuote {
                vault_a_amount,
                vault_b_amount,
                price_a_b: price_of(vault_a_amount, vault_b_amount)->Ok_0,
                price_b_a: price_of(vault_b_amount, vault_a_amount)->Ok_0,
            },
        )
    }
}

/// Reads the amount of a token transfer.
pub fn read_transfer_amount(transfer: &Instruction, protocol: Pools) -> (r: Result<
    u64,
    DecodeError,
>)
    ensures
        r == transfer_amount(*transfer, protocol),
{
    if transfer.data.len() < TRANSFER_MIN_DATA_LEN {
        Err(
            DecodeError::UnrecognizedEventLayout {
                protocol,
                observed_length: transfer.data.len(),
            },
        )
    } else {
        Ok(read_u64_le(transfer.data, TRANSFER_AMOUNT_OFFSET))
    }
}

/// Reads the amounts of the two transfers that follow a swap.
pub fn read_transfer_amounts(transfers: &[Instruction], protocol: Pools) -> (r: Result<
    (u64, u64),
    DecodeError,
>)
    ensures
        r == transfer_amounts(transfers@, protocol),
{
    if transfers.len() < 2 {
        return Err(DecodeError::MissingCompanionInstruction { protocol });
    }
    let amount_in: u64 = match read_transfer_amount(&transfers[0], protocol) {
        Ok(amount) => amount,
        Err(error) => {
            return Err(error);
        },
    };
    let amount_out: u64 = match read_transfer_amount(&transfers[1], protocol) {
        Ok(amount) => amount,
        Err(error) => {
            return Err(error);
        },
    };
    Ok((amount_in, amount_out))
}

/// Books a trade in the balance table.
pub fn settle(
    table: &mut HashMap<u8, u64>,
    receiving: u8,
    amount_in: u64,
    paying: u8,
    amount_out: u64,
) -> (r: Result<(), DecodeError>)
    ensures
        final(table)@ == settled(old(table)@, receiving, amount_in, paying, amount_out).0,
        r == settled(old(table)@, receiving, amount_in, paying, amount_out).1,
{
    match credit(table, receiving, amount_in) {
        Ok(()) => {},
        Err(error) => {
            return Err(error);
        },
    }
    debit(table, paying, amount_out)
}

/// Computes the prices between two vault balances.
pub fn quote_balances(vault_a_amount: u64, vault_b_amount: u64) -> (r: Result<
    PoolQuote,
    DecodeError,
>)
    ensures
        r == quoted_balances(vault_a_amount, vault_b_amount),
{
    let price_b_a: u128 = match price(vault_b_amount, vault_a_amount) {
        Ok(p) => p,
        Err(error) => {
            return Err(error);
        },
    };
    let price_a_b: u128 = match price(vault_a_amount, vault_b_amount) {
        Ok(p) => p,
        Err(error) => {
            return Err(error);
        },
    };
    Ok(PoolQuote { vault_a_amount, vault_b_amount, price_a_b, price_b_a })
}

/// Reads the balances of two vaults and computes the prices between them.
pub fn quote(table: &HashMap<u8, u64>, vault_a: u8, vault_b: u8) -> (r: Result<
    PoolQuote,
    DecodeError,
>)
    ensures
        r == quoted(table@, vault_a, vault_b),
{
    let vault_a_amount: u64 = match balance(table, vault_a) {
        Ok(amount) => amount,
        Err(error) => {
            return Err(error);
        },
    };
    let vault_b_amount: u64 = match balance(table, vault_b) {
        Ok(amount) => amount,
        Err(error) => {
            return Err(error);
        },
    };
    quote_balances(vault_a_amount, vault_b_amount)
}

} // verus!
