//! What the walk keeps and what it reports.

use vstd::prelude::*;
use crate::address::Address;
use crate::address::Signature;
use crate::tables::FeeConfigEntry;
use crate::types::DecodeError;
use crate::types::Outcome;
use crate::types::OutcomeView;
use crate::types::Pools;
use crate::types::Provenance;
use crate::types::SwapTx;
use crate::types::SwapTxView;
use crate::types::TokenCreation;
use crate::types::TokenCreationView;
use crate::types::creation_result_view;
use crate::types::provenance_of;
use crate::types::swap_result_view;

verus! {

/// What stays the same throughout the walk over one transaction.
pub struct WalkContext {
    pub account_keys: Seq<Address>,
    pub ta_mint: Map<u8, Address>,
    pub fee_config: Seq<FeeConfigEntry>,
    pub block_time: u64,
    pub slot: u64,
    pub index: u64,
    pub signature: Signature,
    pub signers: Seq<Address>,
}

/// What one step of the walk does: how many instructions it takes, the
/// balance table that it leaves, and what it reports.
pub struct Step {
    pub consumed: int,
    pub balances: Map<u8, u64>,
    pub outcome: Option<OutcomeView>,
}

/// Where the walk stands: the running balances, the ordinal of the next
/// instruction, what was reported so far, and whether the ordinals have
/// sufficed so far.
pub struct WalkState {
    pub balances: Map<u8, u64>,
    pub ordinal: u8,
    pub outcomes: Seq<OutcomeView>,
    pub completed: bool,
}

/// The context made of its parts.
pub open spec fn context_of(
    account_keys: Seq<Address>,
    ta_mint: Map<u8, Address>,
    fee_config: Seq<FeeConfigEntry>,
    block_time: u64,
    slot: u64,
    index: u64,
    signature: Signature,
    signers: Seq<Address>,
) -> WalkContext {
    WalkContext { account_keys, ta_mint, fee_config, block_time, slot, index, signature, signers }
}

/// The provenance of the instruction with the ordinal `ordinal`.
pub open spec fn provenance_at(context: WalkContext, ordinal: u8) -> Provenance {
    provenance_of(
        context.block_time,
        context.slot,
        context.index,
        ordinal,
        context.signature,
        context.signers,
    )
}

/// What the walk reports for a swap that was or was not decoded.
pub open spec fn swap_outcome(ordinal: u8, decoded: Result<SwapTxView, DecodeError>) -> OutcomeView {
    match decoded {
        Ok(swap) => OutcomeView::Swap(swap),
        Err(error) => OutcomeView::Failed { atomic_instruction_index: ordinal, error },
    }
}

/// What the walk reports for a creation that was or was not decoded.
pub open spec fn creation_outcome(
    ordinal: u8,
    decoded: Result<TokenCreationView, DecodeError>,
) -> OutcomeView {
    match decoded {
        Ok(creation) => OutcomeView::Creation(creation),
        Err(error) => OutcomeView::Failed { atomic_instruction_index: ordinal, error },
    }
}

/// What the walk reports for a swap whose companion instructions are absent.
pub open spec fn missing_companion(ordinal: u8, protocol: Pools) -> OutcomeView {
    OutcomeView::Failed {
        atomic_instruction_index: ordinal,
        error: DecodeError::MissingCompanionInstruction { protocol },
    }
}

/// What a step reports, as a mathematical value.
pub open spec fn reported(outcome: Option<Outcome>) -> Option<OutcomeView> {
    match outcome {
        Some(outcome) => Some(outcome@),
        None => None,
    }
}

/// The reports as mathematical values.
pub open spec fn outcome_views(outcomes: Seq<Outcome>) -> Seq<OutcomeView> {
    Seq::new(outcomes.len(), |i: int| outcomes[i]@)
}

/// The reports with what a step reports behind them.
pub open spec fn with_outcome(outcomes: Seq<OutcomeView>, outcome: Option<OutcomeView>) -> Seq<
    OutcomeView,
> {
    match outcome {
        Some(outcome) => outcomes.push(outcome),
        None => outcomes,
    }
}

/// Wraps a decoded swap, or the reason why there is none, for the report.
pub fn report_swap(ordinal: u8, decoded: Result<SwapTx, DecodeError>) -> (r: Outcome)
    ensures
        r@ == swap_outcome(ordinal, swap_result_view(decoded)),
{
    match decoded {
        Ok(swap) => Outcome::Swap(swap),
        Err(error) => Outcome::Failed { atomic_instruction_index: ordinal, error },
    }
}

/// Wraps a decoded creation, or the reason why there is none, for the
/// report.
pub fn report_creation(ordinal: u8, decoded: Result<TokenCreation, DecodeError>) -> (r: Outcome)
    ensures
        r@ == creation_outcome(ordinal, creation_result_view(decoded)),
{
    match decoded {
        Ok(creation) => Outcome::Creation(creation),
        Err(error) => Outcome::Failed { atomic_instruction_index: ordinal, error },
    }
}

/// Appends what a step reports to the reports.
pub fn push_outcome(events: &mut Vec<Outcome>, outcome: Option<Outcome>)
    ensures
        outcome_views(final(events)@) == with_outcome(
            outcome_views(old(events)@),
            reported(outcome),
        ),
{
    match outcome {
        Some(outcome) => {
            events.push(outcome);
            assert(outcome_views(events@) =~= outcome_views(old(events)@).push(outcome@));
        },
        None => {},
    }
}

} // verus!
