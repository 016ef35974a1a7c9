//! The running balance table, the mint table and the fee configuration of
//! one transaction's decode.

use vstd::prelude::*;
use std::collections::HashMap;
use crate::address::Address;
use crate::types::DecodeError;

verus! {

broadcast use vstd::std_specs::hash::group_hash_axioms;

/// The fee fraction of the pools that one configuration account governs.
#[derive(Clone, Copy, Debug)]
pub struct FeeConfigEntry {
    pub account: Address,
    pub fee_fraction: u64,
}

/// The balance table after `amount` arrived at the account `key`. An
/// account that the table does not hold stays out of it. Nothing where the
/// balance would leave its range.
pub open spec fn credited(table: Map<u8, u64>, key: u8, amount: u64) -> Option<Map<u8, u64>> {
    if !table.contains_key(key) {
        Some(table)
    } else if table[key] + amount > u64::MAX {
        None
    } else {
        Some(table.insert(key, (table[key] + amount) as u64))
    }
}

/// The balance table after `amount` left the account `key`. An account that
/// the table does not hold stays out of it. Nothing where the balance would
/// fall below zero.
pub open spec fn debited(table: Map<u8, u64>, key: u8, amount: u64) -> Option<Map<u8, u64>> {
    if !table.contains_key(key) {
        Some(table)
    } else if table[key] < amount {
        None
    } else {
        Some(table.insert(key, (table[key] - amount) as u64))
    }
}

/// The fee fraction of the first entry for `account`, if there is one.
pub open spec fn fee_of(entries: Seq<FeeConfigEntry>, account: Address) -> Option<u64>
    decreases entries.len(),
{
    if entries.len() == 0 {
        None
    } else if entries[0].account@ == account@ {
        Some(entries[0].fee_fraction)
    } else {
        fee_of(entries.drop_first(), account)
    }
}

/// Adds `amount` to the balance of `key`, where the table holds it.
pub fn credit(table: &mut HashMap<u8, u64>, key: u8, amount: u64) -> (r: Result<(), DecodeError>)
    ensures
        match credited(old(table)@, key, amount) {
            Some(after) => r == Ok::<(), DecodeError>(()) && final(table)@ == after,
            None => r == Err::<(), DecodeError>(DecodeError::ArithmeticOverflow) && final(table)@
                == old(table)@,
        },
{
    let current: Option<u64> = match table.get(&key) {
        Some(balance) => Some(*balance),
        None => None,
    };
    match current {
        Some(balance) => match balance.checked_add(amount) {
            Some(after) => {
                table.insert(key, after);
                Ok(())
            },
            None => Err(DecodeError::ArithmeticOverflow),
        },
        None => Ok(()),
    }
}

/// Takes `amount` from the balance of `key`, where the table holds it.
pub fn debit(table: &mut HashMap<u8, u64>, key: u8, amount: u64) -> (r: Result<(), DecodeError>)
    ensures
        match debited(old(table)@, key, amount) {
            Some(after) => r == Ok::<(), DecodeError>(()) && final(table)@ == after,
            None => r == Err::<(), DecodeError>(DecodeError::ArithmeticOverflow) && final(table)@
                == old(table)@,
        },
{
    let current: Option<u64> = match table.get(&key) {
        Some(balance) => Some(*balance),
        None => None,
    };
    match current {
        Some(balance) => {
            if balance < amount {
                Err(DecodeError::ArithmeticOverflow)
            } else {
                table.insert(key, balance - amount);
                Ok(())
            }
        },
        None => Ok(()),
    }
}

/// The balance of `key`, or the error of a vault without an entry.
pub open spec fn balance_of(table: Map<u8, u64>, key: u8) -> Result<u64, DecodeError> {
    if table.contains_key(key) {
        Ok(table[key])
    } else {
        Err(DecodeError::MissingVaultOrMintMapping { address: key })
    }
}

/// The mint of `key`, or the error of a vault without an entry.
pub open spec fn mint_of(table: Map<u8, Address>, key: u8) -> Result<Address, DecodeError> {
    if table.contains_key(key) {
        Ok(table[key])
    } else {
        Err(DecodeError::MissingVaultOrMintMapping { address: key })
    }
}

/// Looks up the balance of the account `key`.
pub fn balance(table: &HashMap<u8, u64>, key: u8) -> (r: Result<u64, DecodeError>)
    ensures
        r == balance_of(table@, key),
{
    match table.get(&key) {
        Some(balance) => Ok(*balance),
        None => Err(DecodeError::MissingVaultOrMintMapping { address: key }),
    }
}

/// Looks up the mint of the token account `key`.
pub fn mint(table: &HashMap<u8, Address>, key: u8) -> (r: Result<Address, DecodeError>)
    ensures
        r == mint_of(table@, key),
{
    match table.get(&key) {
        Some(mint) => Ok(*mint),
        None => Err(DecodeError::MissingVaultOrMintMapping { address: key }),
    }
}

/// Looks up the fee fraction that the configuration gives for `account`.
pub fn lookup_fee(entries: &Vec<FeeConfigEntry>, account: &Address) -> (r: Option<u64>)
    ensures
        r == fee_of(entries@, *account),
{
    let mut i: usize = 0;
    assert(entries@.skip(0) =~= entries@);
    while i < entries.len()
        invariant
            i <= entries@.len(),
            fee_of(entries@, *account) == fee_of(entries@.skip(i as int), *account),
        decreases entries@.len() - i,
    {
        assert(entries@.skip(i as int)[0] == entries@[i as int]);
        assert(entries@.skip(i as int).drop_first() =~= entries@.skip(i + 1));
        if entries[i].account.same(account) {
            return Some(entries[i].fee_fraction);
        }
        i = i + 1;
    }
    assert(entries@.skip(i as int).len() == 0);
    None
}

} // verus!
