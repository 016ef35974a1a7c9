//! The walk over the top-level instructions of a transaction.

use vstd::prelude::*;
use vstd::slice::slice_subrange;
use std::collections::HashMap;
use crate::address::Address;
use crate::address::Signature;
use crate::classify::classification;
use crate::classify::classify_instruction;
use crate::decode::pumpfun_create::create_decoded;
use crate::decode::pumpfun_create::process_pf_bonding_curve_create_instruction;
use crate::decode::pumpswap::process_pumpswap_swap_instruction;
use crate::decode::pumpswap::pumpswap_decoded;
use crate::decode::raydium_ammv4::ammv4_decoded;
use crate::decode::raydium_ammv4::process_raydium_ammv4_swap_instruction;
use crate::decode::raydium_cpmm::cpmm_decoded;
use crate::decode::raydium_cpmm::process_raydium_cpmm_swap_instruction;
use crate::decode::raydium_launchpad::launchpad_decoded;
use crate::decode::raydium_launchpad::process_raydium_launchpad_swap_instruction;
use crate::tables::FeeConfigEntry;
use crate::types::DecodeError;
use crate::types::Instruction;
use crate::types::InstructionType;
use crate::types::Outcome;
use crate::types::Pools;
use crate::types::Provenance;
use crate::types::provenance_of;
use crate::walk::nested::inner_instructions_loop;
use crate::walk::nested::nested_walk;
use crate::walk::report::Step;
use crate::walk::report::WalkContext;
use crate::walk::report::WalkState;
use crate::walk::report::context_of;
use crate::walk::report::creation_outcome;
use crate::walk::report::missing_companion;
use crate::walk::report::outcome_views;
use crate::walk::report::provenance_at;
use crate::walk::report::push_outcome;
use crate::walk::report::report_creation;
use crate::walk::report::report_swap;
use crate::walk::report::reported;
use crate::walk::report::swap_outcome;
use crate::walk::report::with_outcome;
use crate::signers::Signers;

verus! {

broadcast use vstd::std_specs::hash::group_hash_axioms;

/// The number of top-level instructions whose nested instructions can be
/// found: the table of nested instructions is keyed by a byte.
pub const NESTED_KEYS: usize = 256;

/// The nested instructions of the top-level instruction at `top_index`:
/// those that the table holds for it, and none where it holds none.
pub open spec fn nested_of(
    inner_instructions: Map<u8, Vec<Instruction>>,
    top_index: int,
) -> Seq<Instruction> {
    if 0 <= top_index < NESTED_KEYS && inner_instructions.contains_key(top_index as u8) {
        inner_instructions[top_index as u8]@
    } else {
        Seq::empty()
    }
}

/// Whether a top-level instruction with the tag `tag` is decoded itself. A
/// bonding-curve trade event is only ever a nested instruction: at the top
/// level it counts as unmatched, as does every tag without a decoder.
pub open spec fn matched_at_top_level(tag: InstructionType) -> bool {
    ||| tag == InstructionType::RaydiumLaunchpadSwap
    ||| tag == InstructionType::RaydiumCpmmSwap
    ||| tag == InstructionType::RaydiumAmmV4Swap
    ||| tag == InstructionType::PumpswapSwap
    ||| tag == InstructionType::PfBondingCurveCreate
}

/// The number of transfers that follow a CPMM or an AMM v4 swap.
pub const SWAP_TRANSFERS: usize = 2;

/// The step that the walk takes at a matched top-level instruction, which
/// takes the instruction and all its nested instructions.
///
/// A Launchpad swap has its event in the first nested instruction, a
/// Pumpswap swap in the last. A CPMM or an AMM v4 swap has its transfers in
/// the first two nested instructions. A creation needs none. The companions
/// are looked for before anything is decoded: a swap whose companions the
/// nested instructions do not hold is reported as missing them, whatever
/// else is wrong with it, and leaves the balances as they are.
pub open spec fn top_level_step(
    instruction: Instruction,
    nested: Seq<Instruction>,
    ta_mint: Map<u8, Address>,
    fee_config: Seq<FeeConfigEntry>,
    balances: Map<u8, u64>,
    provenance: Provenance,
) -> Step {
    let tag = classification(instruction).0;
    let direction = classification(instruction).1;
    let ordinal = provenance.atomic_instruction_index;
    let consumed = nested.len() as int + 1;
    if tag == InstructionType::RaydiumLaunchpadSwap {
        Step {
            consumed,
            balances,
            outcome: Some(
                if nested.len() == 0 {
                    missing_companion(ordinal, Pools::RaydiumLaunchpad)
                } else {
                    swap_outcome(
                        ordinal,
                        launchpad_decoded(instruction, nested[0], direction, provenance),
                    )
                },
            ),
        }
    } else if tag == InstructionType::RaydiumCpmmSwap {
        if nested.len() < SWAP_TRANSFERS {
            Step {
                consumed,
                balances,
                outcome: Some(missing_companion(ordinal, Pools::RaydiumCpmm)),
            }
        } else {
            let decoded = cpmm_decoded(
                instruction,
                nested.subrange(0, SWAP_TRANSFERS as int),
                balances,
                fee_config,
                provenance,
            );
            Step { consumed, balances: decoded.0, outcome: Some(swap_outcome(ordinal, decoded.1)) }
        }
    } else if tag == InstructionType::RaydiumAmmV4Swap {
        if nested.len() < SWAP_TRANSFERS {
            Step {
                consumed,
                balances,
                outcome: Some(missing_companion(ordinal, Pools::RaydiumAmmV4)),
            }
        } else {
            let decoded = ammv4_decoded(
                instruction,
                nested.subrange(0, SWAP_TRANSFERS as int),
                ta_mint,
                balances,
                provenance,
            );
            Step { consumed, balances: decoded.0, outcome: Some(swap_outcome(ordinal, decoded.1)) }
        }
    } else if tag == InstructionType::PumpswapSwap {
        Step {
            consumed,
            balances,
            outcome: Some(
                if nested.len() == 0 {
                    missing_companion(ordinal, Pools::PumpswapAmm)
                } else {
                    swap_outcome(
                        ordinal,
                        pumpswap_decoded(instruction, nested.last(), direction, provenance),
                    )
                },
            ),
        }
    } else if tag == InstructionType::PfBondingCurveCreate {
        Step {
            consumed,
            balances,
            outcome: Some(
                creation_outcome(
                    ordinal,
                    create_decoded(
                        instruction,
                        provenance.block_time,
                        provenance.slot,
                        provenance.index,
                        ordinal,
                        provenance.signature,
                    ),
                ),
            ),
        }
    } else {
        Step { consumed, balances, outcome: None }
    }
}

/// The state behind one top-level instruction with its nested
/// instructions, reached from the state `state`.
///
/// A matched instruction is decoded, and the ordinal advances past it and
/// all its nested instructions. An unmatched one advances the ordinal by
/// one, and the walk goes through its nested instructions. Where the
/// ordinal would leave its range the walk stops and is not completed.
pub open spec fn top_level_iteration(
    context: WalkContext,
    instruction: Instruction,
    nested: Seq<Instruction>,
    state: WalkState,
) -> WalkState {
    if matched_at_top_level(classification(instruction).0) {
        let step = top_level_step(
            instruction,
            nested,
            context.ta_mint,
            context.fee_config,
            state.balances,
            provenance_at(context, state.ordinal),
        );
        let outcomes = with_outcome(state.outcomes, step.outcome);
        if state.ordinal + step.consumed > u8::MAX {
            WalkState { balances: step.balances, ordinal: state.ordinal, outcomes, completed: false }
        } else {
            WalkState {
                balances: step.balances,
                ordinal: (state.ordinal + step.consumed) as u8,
                outcomes,
                completed: true,
            }
        }
    } else if state.ordinal + 1 > u8::MAX {
        WalkState {
            balances: state.balances,
            ordinal: state.ordinal,
            outcomes: state.outcomes,
            completed: false,
        }
    } else {
        nested_walk(
            context,
            nested,
            0,
            WalkState {
                balances: state.balances,
                ordinal: (state.ordinal + 1) as u8,
                outcomes: state.outcomes,
                completed: true,
            },
        )
    }
}

/// The state in which the walk over a transaction ends, begun at the
/// top-level instruction at `position` in the state `state`: one iteration
/// for each top-level instruction, in order, until the last or until the
/// ordinals are exhausted.
pub open spec fn top_level_walk(
    context: WalkContext,
    top_level_instructions: Seq<Instruction>,
    inner_instructions: Map<u8, Vec<Instruction>>,
    position: int,
    state: WalkState,
) -> WalkState
    decreases top_level_instructions.len() - position,
{
    if position < 0 || position >= top_level_instructions.len() || !state.completed {
        state
    } else {
        top_level_walk(
            context,
            top_level_instructions,
            inner_instructions,
            position + 1,
            top_level_iteration(
                context,
                top_level_instructions[position],
                nested_of(inner_instructions, position),
                state,
            ),
        )
    }
}

/// Decodes a top-level instruction with its nested instructions, where it
/// is one that is decoded at the top level.
pub fn take_top_level_step(
    instruction: &Instruction,
    nested: &Vec<Instruction>,
    ta_mint: &HashMap<u8, Address>,
    running_token_balances: &mut HashMap<u8, u64>,
    fee_config: &Vec<FeeConfigEntry>,
    block_time: u64,
    slot: u64,
    index: u64,
    atomic_instruction_index: u8,
    signers: &Signers,
    signature: &Signature,
) -> (r: Option<Outcome>)
    ensures
        ({
            let step = top_level_step(
                *instruction,
                nested@,
                ta_mint@,
                fee_config@,
                old(running_token_balances)@,
                provenance_of(
                    block_time,
                    slot,
                    index,
                    atomic_instruction_index,
                    *signature,
                    signers@,
                ),
            );
            &&& final(running_token_balances)@ == step.balances
            &&& reported(r) == step.outcome
        }),
{
    let (instruction_type, swap_direction) = classify_instruction(instruction);
    match instruction_type {
        InstructionType::RaydiumLaunchpadSwap => {
            if nested.len() == 0 {
                return Some(
                    Outcome::Failed {
                        atomic_instruction_index,
                        error: DecodeError::MissingCompanionInstruction {
                            protocol: Pools::RaydiumLaunchpad,
                        },
                    },
                );
            }
            let decoded = process_raydium_launchpad_swap_instruction(
                instruction,
                &nested[0],
                swap_direction,
                block_time,
                slot,
                index,
                atomic_instruction_index,
                signers,
                signature,
            );
            Some(report_swap(atomic_instruction_index, decoded))
        },
        InstructionType::RaydiumCpmmSwap => {
            if nested.len() < SWAP_TRANSFERS {
                return Some(
                    Outcome::Failed {
                        atomic_instruction_index,
                        error: DecodeError::MissingCompanionInstruction {
                            protocol: Pools::RaydiumCpmm,
                        },
                    },
                );
            }
            let decoded = process_raydium_cpmm_swap_instruction(
                instruction,
                slice_subrange(nested.as_slice(), 0, SWAP_TRANSFERS),
                running_token_balances,
                fee_config,
                block_time,
                slot,
                index,
                atomic_instruction_index,
                signers,
                signature,
            );
            Some(report_swap(atomic_instruction_index, decoded))
        },
        InstructionType::RaydiumAmmV4Swap => {
            if nested.len() < SWAP_TRANSFERS {
                return Some(
                    Outcome::Failed {
                        atomic_instruction_index,
                        error: DecodeError::MissingCompanionInstruction {
                            protocol: Pools::RaydiumAmmV4,
                        },
                    },
                );
            }
            let decoded = process_raydium_ammv4_swap_instruction(
                instruction,
                slice_subrange(nested.as_slice(), 0, SWAP_TRANSFERS),
                ta_mint,
                running_token_balances,
                block_time,
                slot,
                index,
                atomic_instruction_index,
                signers,
                signature,
            );
            Some(report_swap(atomic_instruction_index, decoded))
        },
        InstructionType::PumpswapSwap => {
            if nested.len() == 0 {
                return Some(
                    Outcome::Failed {
                        atomic_instruction_index,
                        error: DecodeError::MissingCompanionInstruction {
                            protocol: Pools::PumpswapAmm,
                        },
                    },
                );
            }
            let decoded = process_pumpswap_swap_instruction(
                instruction,
                &nested[nested.len() - 1],
                swap_direction,
                block_time,
                slot,
                index,
                atomic_instruction_index,
                signers,
                signature,
            );
            Some(report_swap(atomic_instruction_index, decoded))
        },
        InstructionType::PfBondingCurveCreate => {
            let decoded = process_pf_bonding_curve_create_instruction(
                instruction,
                block_time,
                slot,
                index,
                atomic_instruction_index,
                signature,
            );
            Some(report_creation(atomic_instruction_index, decoded))
        },
        _ => None,
    }
}

/// Takes one top-level instruction with its nested instructions: decodes it
/// where it is matched, and goes through its nested instructions where it
/// is not.
pub fn take_top_level_instruction(
    instruction: &Instruction,
    nested: &Vec<Instruction>,
    account_keys: &Vec<Address>,
    ta_mint: &HashMap<u8, Address>,
    running_token_balances: &mut HashMap<u8, u64>,
    fee_config: &Vec<FeeConfigEntry>,
    events: &mut Vec<Outcome>,
    block_time: u64,
    slot: u64,
    index: u64,
    atomic_instruction_index: &mut u8,
    signers: &Signers,
    signature: &Signature,
) -> (r: Result<(), DecodeError>)
    ensures
        ({
            let end = top_level_iteration(
                context_of(
                    account_keys@,
                    ta_mint@,
                    fee_config@,
                    block_time,
                    slot,
                    index,
                    *signature,
                    signers@,
                ),
                *instruction,
                nested@,
                WalkState {
                    balances: old(running_token_balances)@,
                    ordinal: *old(atomic_instruction_index),
                    outcomes: outcome_views(old(events)@),
                    completed: true,
                },
            );
            &&& final(running_token_balances)@ == end.balances
            &&& *final(atomic_instruction_index) == end.ordinal
            &&& outcome_views(final(events)@) == end.outcomes
            &&& r == if end.completed {
                Ok::<(), DecodeError>(())
            } else {
                Err::<(), DecodeError>(DecodeError::ArithmeticOverflow)
            }
        }),
{
    let ordinal: u8 = *atomic_instruction_index;
    let (instruction_type, _) = classify_instruction(instruction);
    match instruction_type {
        InstructionType::RaydiumLaunchpadSwap
        | InstructionType::RaydiumCpmmSwap
        | InstructionType::RaydiumAmmV4Swap
        | InstructionType::PumpswapSwap
        | InstructionType::PfBondingCurveCreate => {
            let outcome = take_top_level_step(
                instruction,
                nested,
                ta_mint,
                running_token_balances,
                fee_config,
                block_time,
                slot,
                index,
                ordinal,
                signers,
                signature,
            );
            push_outcome(events, outcome);
            let room: usize = (u8::MAX - ordinal) as usize;
            if nested.len() >= room {
                return Err(DecodeError::ArithmeticOverflow);
            }
            *atomic_instruction_index = ordinal + (nested.len() as u8) + 1;
            Ok(())
        },
        _ => {
            if ordinal == u8::MAX {
                return Err(DecodeError::ArithmeticOverflow);
            }
            *atomic_instruction_index = ordinal + 1;
            inner_instructions_loop(
                nested,
                account_keys,
                ta_mint,
                running_token_balances,
                fee_config,
                events,
                block_time,
                slot,
                index,
                atomic_instruction_index,
                signers,
                signature,
            )
        },
    }
}

/// Looks up the nested instructions of the top-level instruction at
/// `top_index`.
pub fn nested_instructions<'a, 'b>(
    inner_instructions: &'b HashMap<u8, Vec<Instruction<'a>>>,
    top_index: usize,
) -> (r: Option<&'b Vec<Instruction<'a>>>)
    ensures
        match r {
            Some(nested) => nested@ == nested_of(inner_instructions@, top_index as int),
            None => nested_of(inner_instructions@, top_index as int) == Seq::<Instruction>::empty(),
        },
{
    if top_index < NESTED_KEYS {
        inner_instructions.get(&(top_index as u8))
    } else {
        None
    }
}

/// Walks over the instructions of a transaction in program order: decodes
/// every matched top-level instruction with its nested instructions, goes
/// through the nested instructions of every unmatched one, books each trade
/// in the running balances, and appends what each matched instruction
/// yields to `events`. Every instruction, top-level or nested, takes one
/// ordinal, the first being 0.
///
/// A swap's companions are looked for among its nested instructions before
/// it is decoded: where they are absent the swap is reported as missing
/// them, and the balances stay as they are.
///
/// The walk stops with `ArithmeticOverflow` where the ordinal would leave
/// its range; what was reported until then stays in `events`. An
/// instruction that cannot be decoded is reported as failed and does not
/// stop the walk.
pub fn top_level_instructions_loop(
    top_level_instructions: &Vec<Instruction>,
    inner_instructions: &HashMap<u8, Vec<Instruction>>,
    account_keys: &Vec<Address>,
    ta_mint: &HashMap<u8, Address>,
    running_token_balances: &mut HashMap<u8, u64>,
    fee_config: &Vec<FeeConfigEntry>,
    events: &mut Vec<Outcome>,
    block_time: u64,
    slot: u64,
    index: u64,
    signers: &Signers,
    signature: &Signature,
) -> (r: Result<(), DecodeError>)
    ensures
        ({
            let end = top_level_walk(
                context_of(
                    account_keys@,
                    ta_mint@,
                    fee_config@,
                    block_time,
                    slot,
                    index,
                    *signature,
                    signers@,
                ),
                top_level_instructions@,
                inner_instructions@,
                0,
                WalkState {
                    balances: old(running_token_balances)@,
                    ordinal: 0,
                    outcomes: outcome_views(old(events)@),
                    completed: true,
                },
            );
            &&& final(running_token_balances)@ == end.balances
            &&& outcome_views(final(events)@) == end.outcomes
            &&& r == if end.completed {
                Ok::<(), DecodeError>(())
            } else {
                Err::<(), DecodeError>(DecodeError::ArithmeticOverflow)
            }
        }),
{
    let ghost context = context_of(
        account_keys@,
        ta_mint@,
        fee_config@,
        block_time,
        slot,
        index,
        *signature,
        signers@,
    );
    let ghost begin = WalkState {
        balances: running_token_balances@,
        ordinal: 0,
        outcomes: outcome_views(events@),
        completed: true,
    };
    let no_instructions: Vec<Instruction> = Vec::new();
    let mut atomic_instruction_index: u8 = 0;
    let mut instr_index: usize = 0;
    while instr_index < top_level_instructions.len()
        invariant
            instr_index <= top_level_instructions@.len(),
            no_instructions@ == Seq::<Instruction>::empty(),
            begin == (WalkState {
                balances: old(running_token_balances)@,
                ordinal: 0,
                outcomes: outcome_views(old(events)@),
                completed: true,
            }),
            context == context_of(
                account_keys@,
                ta_mint@,
                fee_config@,
                block_time,
                slot,
                index,
                *signature,
                signers@,
            ),
            top_level_walk(context, top_level_instructions@, inner_instructions@, 0, begin)
                == top_level_walk(
                context,
                top_level_instructions@,
                inner_instructions@,
                instr_index as int,
                WalkState {
                    balances: running_token_balances@,
                    ordinal: atomic_instruction_index,
                    outcomes: outcome_views(events@),
                    completed: true,
                },
            ),
        decreases top_level_instructions@.len() - instr_index,
    {
        let instruction: &Instruction = &top_level_instructions[instr_index];
        let nested: &Vec<Instruction> = match nested_instructions(inner_instructions, instr_index) {
            Some(nested) => nested,
            None => &no_instructions,
        };
        let ghost before = WalkState {
            balances: running_token_balances@,
            ordinal: atomic_instruction_index,
            outcomes: outcome_views(events@),
            completed: true,
        };
        match take_top_level_instruction(
            instruction,
            nested,
            account_keys,
            ta_mint,
            running_token_balances,
            fee_config,
            events,
            block_time,
            slot,
            index,
            &mut atomic_instruction_index,
            signers,
            signature,
        ) {
            Ok(()) => {},
            Err(error) => {
                proof {
                    let end = top_level_iteration(context, *instruction, nested@, before);
                    assert(top_level_walk(
                        context,
                        top_level_instructions@,
                        inner_instructions@,
                        instr_index + 1,
                        end,
                    ) == end);
                }
                return Err(error);
            },
        }
        instr_index = instr_index + 1;
    }
    Ok(())
}

} // verus!
