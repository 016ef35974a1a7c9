//! The decode of one transaction, from what the normalizer hands over to
//! the list of what its instructions yielded.

use vstd::prelude::*;
use std::collections::HashMap;
use crate::address::Address;
use crate::address::Signature;
use crate::tables::FeeConfigEntry;
use crate::types::DecodeError;
use crate::types::Instruction;
use crate::types::Outcome;
use crate::walk::report::WalkState;
use crate::walk::report::context_of;
use crate::walk::report::outcome_views;
use crate::walk::top_level::top_level_instructions_loop;
use crate::walk::top_level::top_level_walk;
use crate::signers::Signers;

verus! {

broadcast use vstd::std_specs::hash::group_hash_axioms;

/// The balance of one token account before or after the transaction.
#[derive(Clone, Copy, Debug)]
pub struct TokenBalance {
    /// The index of the token account among the transaction's keys.
    pub account_index: u8,
    pub mint: Address,
    pub amount: u64,
}

/// The mint of one token account that holds a balance after the
/// transaction.
#[derive(Clone, Copy, Debug)]
pub struct TokenMint {
    /// The index of the token account among the transaction's keys.
    pub account_index: u8,
    pub mint: Address,
}

/// A transaction in the form that every source is brought into.
pub struct NormalizedTx<'a> {
    /// Whether the transaction's execution failed.
    pub failed: bool,
    pub top_level_instructions: Vec<Instruction<'a>>,
    /// The nested instructions of each top-level instruction, by its index.
    pub inner_instructions: HashMap<u8, Vec<Instruction<'a>>>,
    pub account_keys: &'a Vec<Address>,
    /// The balances of the token accounts before the transaction.
    pub pre_token_balances: Vec<TokenBalance>,
    /// The mints of the token accounts that hold a balance after it.
    pub post_token_balances: Vec<TokenMint>,
    /// The addresses that signed the transaction.
    pub signers: Signers,
    pub signature: Signature,
}

/// The mint table `table` with the mints of `records` entered in order, a
/// later record replacing an earlier one of the same account.
pub open spec fn with_mints(table: Map<u8, Address>, records: Seq<TokenMint>) -> Map<u8, Address>
    decreases records.len(),
{
    if records.len() == 0 {
        table
    } else {
        with_mints(table, records.drop_last()).insert(
            records.last().account_index,
            records.last().mint,
        )
    }
}

/// The mint table `table` with the mints of the balance records `records`
/// entered in order, a later record replacing an earlier one of the same
/// account.
pub open spec fn with_balance_mints(table: Map<u8, Address>, records: Seq<TokenBalance>) -> Map<
    u8,
    Address,
>
    decreases records.len(),
{
    if records.len() == 0 {
        table
    } else {
        with_balance_mints(table, records.drop_last()).insert(
            records.last().account_index,
            records.last().mint,
        )
    }
}

/// The balance table `table` with the amounts of `records` entered in
/// order, a later record replacing an earlier one of the same account.
pub open spec fn with_balances(table: Map<u8, u64>, records: Seq<TokenBalance>) -> Map<u8, u64>
    decreases records.len(),
{
    if records.len() == 0 {
        table
    } else {
        with_balances(table, records.drop_last()).insert(
            records.last().account_index,
            records.last().amount,
        )
    }
}

/// The mint of every token account that has a balance before or after the
/// transaction.
pub open spec fn mint_table_of(
    pre_token_balances: Seq<TokenBalance>,
    post_token_balances: Seq<TokenMint>,
) -> Map<u8, Address> {
    with_mints(with_balance_mints(Map::empty(), pre_token_balances), post_token_balances)
}

/// The balance of every token account before the transaction.
pub open spec fn balance_table_of(pre_token_balances: Seq<TokenBalance>) -> Map<u8, u64> {
    with_balances(Map::empty(), pre_token_balances)
}

/// Enters the mints of the balance records `records` into the mint table.
pub fn enter_balance_mints(table: &mut HashMap<u8, Address>, records: &Vec<TokenBalance>)
    ensures
        final(table)@ == with_balance_mints(old(table)@, records@),
{
    let mut i: usize = 0;
    while i < records.len()
        invariant
            i <= records@.len(),
            table@ == with_balance_mints(old(table)@, records@.take(i as int)),
        decreases records@.len() - i,
    {
        table.insert(records[i].account_index, records[i].mint);
        assert(records@.take(i + 1).drop_last() =~= records@.take(i as int));
        i = i + 1;
    }
    assert(records@.take(i as int) =~= records@);
}

/// Enters the mints of `records` into the mint table.
pub fn enter_mints(table: &mut HashMap<u8, Address>, records: &Vec<TokenMint>)
    ensures
        final(table)@ == with_mints(old(table)@, records@),
{
    let mut i: usize = 0;
    while i < records.len()
        invariant
            i <= records@.len(),
            table@ == with_mints(old(table)@, records@.take(i as int)),
        decreases records@.len() - i,
    {
        table.insert(records[i].account_index, records[i].mint);
        assert(records@.take(i + 1).drop_last() =~= records@.take(i as int));
        i = i + 1;
    }
    assert(records@.take(i as int) =~= records@);
}

/// Enters the amounts of `records` into the balance table.
pub fn enter_balances(table: &mut HashMap<u8, u64>, records: &Vec<TokenBalance>)
    ensures
        final(table)@ == with_balances(old(table)@, records@),
{
    let mut i: usize = 0;
    while i < records.len()
        invariant
            i <= records@.len(),
            table@ == with_balances(old(table)@, records@.take(i as int)),
        decreases records@.len() - i,
    {
        table.insert(records[i].account_index, records[i].amount);
        assert(records@.take(i + 1).drop_last() =~= records@.take(i as int));
        i = i + 1;
    }
    assert(records@.take(i as int) =~= records@);
}

/// Builds the mint table of a transaction from its balance records.
pub fn build_mint_table(
    pre_token_balances: &Vec<TokenBalance>,
    post_token_balances: &Vec<TokenMint>,
) -> (r: HashMap<u8, Address>)
    ensures
        r@ == mint_table_of(pre_token_balances@, post_token_balances@),
{
    let mut table: HashMap<u8, Address> = HashMap::new();
    enter_balance_mints(&mut table, pre_token_balances);
    enter_mints(&mut table, post_token_balances);
    table
}

/// Builds the running balance table of a transaction from the balances
/// before it.
pub fn build_balance_table(pre_token_balances: &Vec<TokenBalance>) -> (r: HashMap<u8, u64>)
    ensures
        r@ == balance_table_of(pre_token_balances@),
{
    let mut table: HashMap<u8, u64> = HashMap::new();
    enter_balances(&mut table, pre_token_balances);
    table
}

/// Decodes a transaction: builds its mint table and its running balances
/// from the balance records, walks over its instructions, and appends what
/// they yield to `events`.
///
/// A transaction whose execution failed is not decoded: it yields nothing.
pub fn analyze_tx(
    tx: &NormalizedTx,
    fee_config: &Vec<FeeConfigEntry>,
    events: &mut Vec<Outcome>,
    block_time: u64,
    slot: u64,
    index: u64,
) -> (r: Result<(), DecodeError>)
    ensures
        tx.failed ==> r == Ok::<(), DecodeError>(()) && final(events)@ == old(events)@,
        !tx.failed ==> ({
            let end = top_level_walk(
                context_of(
                    tx.account_keys@,
                    mint_table_of(tx.pre_token_balances@, tx.post_token_balances@),
                    fee_config@,
                    block_time,
                    slot,
                    index,
                    tx.signature,
                    tx.signers@,
                ),
                tx.top_level_instructions@,
                tx.inner_instructions@,
                0,
                WalkState {
                    balances: balance_table_of(tx.pre_token_balances@),
                    ordinal: 0,
                    outcomes: outcome_views(old(events)@),
                    completed: true,
                },
            );
            &&& outcome_views(final(events)@) == end.outcomes
            &&& r == if end.completed {
                Ok::<(), DecodeError>(())
            } else {
                Err::<(), DecodeError>(DecodeError::ArithmeticOverflow)
            }
        }),
{
    if tx.failed {
        return Ok(());
    }
    let ta_mint: HashMap<u8, Address> = build_mint_table(
        &tx.pre_token_balances,
        &tx.post_token_balances,
    );
    let mut running_token_balances: HashMap<u8, u64> = build_balance_table(&tx.pre_token_balances);
    top_level_instructions_loop(
        &tx.top_level_instructions,
        &tx.inner_instructions,
        tx.account_keys,
        &ta_mint,
        &mut running_token_balances,
        fee_config,
        events,
        block_time,
        slot,
        index,
        &tx.signers,
        &tx.signature,
    )
}

} // verus!
