//! What holds of every walk.

use vstd::prelude::*;
use crate::address::Address;
use crate::classify::classification;
use crate::tables::FeeConfigEntry;
use crate::types::Instruction;
use crate::types::InstructionType;
use crate::types::Pools;
use crate::walk::report::Step;
use crate::walk::report::missing_companion;
use crate::walk::nested::pumpswap_event_position;
use crate::types::Provenance;
use crate::types::OutcomeView;
use crate::walk::report::WalkContext;
use crate::walk::report::WalkState;
use crate::walk::nested::lemma_pumpswap_event_position;
use crate::walk::top_level::matched_at_top_level;
use crate::walk::top_level::nested_of;
use crate::walk::nested::nested_step;
use crate::walk::nested::nested_walk;
use crate::walk::report::provenance_at;
use crate::walk::top_level::top_level_iteration;
use crate::walk::top_level::top_level_step;
use crate::walk::top_level::top_level_walk;
use crate::walk::report::with_outcome;

verus! {

/// The ordinal that an outcome carries.
pub open spec fn outcome_ordinal(outcome: OutcomeView) -> u8 {
    match outcome {
        OutcomeView::Swap(swap) => swap.atomic_instruction_index,
        OutcomeView::Creation(creation) => creation.atomic_instruction_index,
        OutcomeView::Failed { atomic_instruction_index, .. } => atomic_instruction_index,
    }
}

/// Whether each outcome carries a greater ordinal than those before it.
pub open spec fn ordinals_increase(outcomes: Seq<OutcomeView>) -> bool {
    forall|i: int, j: int|
        0 <= i < j < outcomes.len() ==> outcome_ordinal(#[trigger] outcomes[i]) < outcome_ordinal(
            #[trigger] outcomes[j],
        )
}

/// Whether every outcome carries an ordinal below `bound`.
pub open spec fn ordinals_below(outcomes: Seq<OutcomeView>, bound: int) -> bool {
    forall|i: int| 0 <= i < outcomes.len() ==> outcome_ordinal(#[trigger] outcomes[i]) < bound
}

/// Whether the walk may go on from `state`: what was reported so far
/// carries increasing ordinals, all of them below the next.
pub open spec fn well_numbered(state: WalkState) -> bool {
    ordinals_increase(state.outcomes) && ordinals_below(state.outcomes, state.ordinal as int)
}

/// Whether the walk has gone on from `begin` to `end` in order: the ordinal
/// did not fall, what `begin` had reported is the beginning of what `end`
/// has, the ordinals of the reports increase, and they lie below the next
/// ordinal where the walk was completed.
pub open spec fn walked_in_order(begin: WalkState, end: WalkState) -> bool {
    &&& begin.ordinal <= end.ordinal
    &&& begin.outcomes.len() <= end.outcomes.len()
    &&& end.outcomes.subrange(0, begin.outcomes.len() as int) == begin.outcomes
    &&& ordinals_increase(end.outcomes)
    &&& end.completed ==> ordinals_below(end.outcomes, end.ordinal as int)
}

/// The signers that an outcome carries, where it is a swap.
pub open spec fn outcome_signers(outcome: OutcomeView) -> Option<Seq<Address>> {
    match outcome {
        OutcomeView::Swap(swap) => Some(swap.signers),
        _ => None,
    }
}

/// A step at a nested instruction takes at least that instruction and no
/// more than the list holds, and what it reports carries the ordinal of the
/// instruction and, where it is a swap, the signers of the transaction.
pub proof fn lemma_nested_step(
    context: WalkContext,
    instructions: Seq<Instruction>,
    position: int,
    balances: Map<u8, u64>,
    ordinal: u8,
)
    requires
        0 <= position < instructions.len(),
    ensures
        ({
            let step = nested_step(context, instructions, position, balances, ordinal);
            &&& 1 <= step.consumed <= instructions.len() - position
            &&& step.outcome matches Some(outcome) ==> outcome_ordinal(outcome) == ordinal
            &&& step.outcome matches Some(outcome) ==> (outcome_signers(outcome) matches Some(
                signers,
            ) ==> signers == context.signers)
        }),
{
    lemma_pumpswap_event_position(instructions, context.account_keys, position + 1);
}

/// What a step at a top-level instruction reports carries the ordinal of
/// the instruction and, where it is a swap, the signers of the transaction.
pub proof fn lemma_top_level_step(
    instruction: Instruction,
    nested: Seq<Instruction>,
    ta_mint: Map<u8, Address>,
    fee_config: Seq<FeeConfigEntry>,
    balances: Map<u8, u64>,
    provenance: Provenance,
)
    ensures
        ({
            let step = top_level_step(
                instruction,
                nested,
                ta_mint,
                fee_config,
                balances,
                provenance,
            );
            &&& step.consumed == nested.len() + 1
            &&& step.outcome matches Some(outcome) ==> outcome_ordinal(outcome)
                == provenance.atomic_instruction_index
            &&& step.outcome matches Some(outcome) ==> (outcome_signers(outcome) matches Some(
                signers,
            ) ==> signers == provenance.signers)
        }),
{
}

/// Reports with increasing ordinals below `ordinal` stay so with one more
/// that carries `ordinal`.
pub proof fn lemma_with_outcome(
    outcomes: Seq<OutcomeView>,
    outcome: Option<OutcomeView>,
    ordinal: u8,
)
    requires
        ordinals_increase(outcomes),
        ordinals_below(outcomes, ordinal as int),
        outcome matches Some(reported) ==> outcome_ordinal(reported) == ordinal,
    ensures
        ordinals_increase(with_outcome(outcomes, outcome)),
        ordinals_below(with_outcome(outcomes, outcome), ordinal + 1),
        outcomes.len() <= with_outcome(outcomes, outcome).len(),
        with_outcome(outcomes, outcome).subrange(0, outcomes.len() as int) == outcomes,
{
    assert(with_outcome(outcomes, outcome).subrange(0, outcomes.len() as int) =~= outcomes);
}

/// The walk over nested instructions numbers what it reports in program
/// order: the ordinal never falls, nothing that was reported is taken back,
/// and each report carries a greater ordinal than those before it.
pub proof fn lemma_nested_walk_is_ordered(
    context: WalkContext,
    instructions: Seq<Instruction>,
    position: int,
    state: WalkState,
)
    requires
        0 <= position,
        well_numbered(state),
        state.completed,
    ensures
        walked_in_order(state, nested_walk(context, instructions, position, state)),
    decreases instructions.len() - position,
{
    if position < instructions.len() {
        let step = nested_step(context, instructions, position, state.balances, state.ordinal);
        let outcomes = with_outcome(state.outcomes, step.outcome);
        lemma_nested_step(context, instructions, position, state.balances, state.ordinal);
        lemma_with_outcome(state.outcomes, step.outcome, state.ordinal);
        if state.ordinal + step.consumed <= u8::MAX {
            let next = WalkState {
                balances: step.balances,
                ordinal: (state.ordinal + step.consumed) as u8,
                outcomes,
                completed: true,
            };
            lemma_nested_walk_is_ordered(context, instructions, position + step.consumed, next);
            let end = nested_walk(context, instructions, position + step.consumed, next);
            assert(end.outcomes.subrange(0, state.outcomes.len() as int)
                =~= end.outcomes.subrange(0, outcomes.len() as int).subrange(
                0,
                state.outcomes.len() as int,
            ));
        }
    } else {
        assert(state.outcomes.subrange(0, state.outcomes.len() as int) =~= state.outcomes);
    }
}

/// One iteration of the walk over a transaction numbers what it reports in
/// program order.
pub proof fn lemma_top_level_iteration_is_ordered(
    context: WalkContext,
    instruction: Instruction,
    nested: Seq<Instruction>,
    state: WalkState,
)
    requires
        well_numbered(state),
        state.completed,
    ensures
        walked_in_order(state, top_level_iteration(context, instruction, nested, state)),
{
    if matched_at_top_level(classification(instruction).0) {
        let step = top_level_step(
            instruction,
            nested,
            context.ta_mint,
            context.fee_config,
            state.balances,
            provenance_at(context, state.ordinal),
        );
        lemma_top_level_step(
            instruction,
            nested,
            context.ta_mint,
            context.fee_config,
            state.balances,
            provenance_at(context, state.ordinal),
        );
        lemma_with_outcome(state.outcomes, step.outcome, state.ordinal);
    } else if state.ordinal + 1 <= u8::MAX {
        let next = WalkState {
            balances: state.balances,
            ordinal: (state.ordinal + 1) as u8,
            outcomes: state.outcomes,
            completed: true,
        };
        lemma_nested_walk_is_ordered(context, nested, 0, next);
    } else {
        assert(state.outcomes.subrange(0, state.outcomes.len() as int) =~= state.outcomes);
    }
}

/// The walk over a transaction numbers what it reports in program order:
/// the ordinal never falls, nothing that was reported is taken back, and
/// each report carries a greater ordinal than those before it.
pub proof fn lemma_top_level_walk_is_ordered(
    context: WalkContext,
    top_level_instructions: Seq<Instruction>,
    inner_instructions: Map<u8, Vec<Instruction>>,
    position: int,
    state: WalkState,
)
    requires
        0 <= position,
        well_numbered(state),
        state.completed,
    ensures
        walked_in_order(
            state,
            top_level_walk(context, top_level_instructions, inner_instructions, position, state),
        ),
    decreases top_level_instructions.len() - position,
{
    if position < top_level_instructions.len() {
        let next = top_level_iteration(
            context,
            top_level_instructions[position],
            nested_of(inner_instructions, position),
            state,
        );
        lemma_top_level_iteration_is_ordered(
            context,
            top_level_instructions[position],
            nested_of(inner_instructions, position),
            state,
        );
        if next.completed {
            lemma_top_level_walk_is_ordered(
                context,
                top_level_instructions,
                inner_instructions,
                position + 1,
                next,
            );
            let end = top_level_walk(
                context,
                top_level_instructions,
                inner_instructions,
                position + 1,
                next,
            );
            assert(end.outcomes.subrange(0, state.outcomes.len() as int)
                =~= end.outcomes.subrange(0, next.outcomes.len() as int).subrange(
                0,
                state.outcomes.len() as int,
            ));
        } else {
            assert(top_level_walk(
                context,
                top_level_instructions,
                inner_instructions,
                position + 1,
                next,
            ) == next);
        }
    } else {
        assert(state.outcomes.subrange(0, state.outcomes.len() as int) =~= state.outcomes);
    }
}

/// A swap at the top level whose companions its nested instructions do not
/// hold is reported as missing them, whatever its accounts are, and leaves
/// the balances as they are: a CPMM or an AMM v4 swap with fewer than two
/// nested instructions, a Launchpad or a Pumpswap swap with none.
pub proof fn lemma_top_level_swap_without_companions(
    instruction: Instruction,
    nested: Seq<Instruction>,
    ta_mint: Map<u8, Address>,
    fee_config: Seq<FeeConfigEntry>,
    balances: Map<u8, u64>,
    provenance: Provenance,
)
    ensures
        ({
            let tag = classification(instruction).0;
            let step = top_level_step(
                instruction,
                nested,
                ta_mint,
                fee_config,
                balances,
                provenance,
            );
            let ordinal = provenance.atomic_instruction_index;
            &&& tag == InstructionType::RaydiumAmmV4Swap && nested.len() < 2 ==> step.balances
                == balances && step.outcome == Some(
                missing_companion(ordinal, Pools::RaydiumAmmV4),
            )
            &&& tag == InstructionType::RaydiumCpmmSwap && nested.len() < 2 ==> step.balances
                == balances && step.outcome == Some(missing_companion(ordinal, Pools::RaydiumCpmm))
            &&& tag == InstructionType::RaydiumLaunchpadSwap && nested.len() == 0 ==> step.balances
                == balances && step.outcome == Some(
                missing_companion(ordinal, Pools::RaydiumLaunchpad),
            )
            &&& tag == InstructionType::PumpswapSwap && nested.len() == 0 ==> step.balances
                == balances && step.outcome == Some(missing_companion(ordinal, Pools::PumpswapAmm))
        }),
{
}

/// A nested swap whose companions the list does not hold behind it is
/// reported as missing them, whatever its accounts are, is taken alone and
/// leaves the balances as they are.
pub proof fn lemma_nested_swap_without_companions(
    context: WalkContext,
    instructions: Seq<Instruction>,
    position: int,
    balances: Map<u8, u64>,
    ordinal: u8,
)
    requires
        0 <= position < instructions.len(),
    ensures
        ({
            let tag = classification(instructions[position]).0;
            let step = nested_step(context, instructions, position, balances, ordinal);
            let behind = instructions.len() - position - 1;
            &&& tag == InstructionType::RaydiumAmmV4Swap && behind < 2 ==> step == (Step {
                consumed: 1,
                balances,
                outcome: Some(missing_companion(ordinal, Pools::RaydiumAmmV4)),
            })
            &&& tag == InstructionType::RaydiumCpmmSwap && behind < 2 ==> step == (Step {
                consumed: 1,
                balances,
                outcome: Some(missing_companion(ordinal, Pools::RaydiumCpmm)),
            })
            &&& tag == InstructionType::RaydiumLaunchpadSwap && behind < 1 ==> step == (Step {
                consumed: 1,
                balances,
                outcome: Some(missing_companion(ordinal, Pools::RaydiumLaunchpad)),
            })
            &&& tag == InstructionType::PumpswapSwap && pumpswap_event_position(
                instructions,
                context.account_keys,
                position + 1,
            ) is None ==> step == (Step {
                consumed: 1,
                balances,
                outcome: Some(missing_companion(ordinal, Pools::PumpswapAmm)),
            })
        }),
{
}

} // verus!
