//! The walk over the nested instructions of one top-level instruction.

use vstd::prelude::*;
use vstd::slice::slice_subrange;
use std::collections::HashMap;
use crate::address::Address;
use crate::address::Signature;
use crate::classify::classification;
use crate::classify::classify_instruction;
use crate::constants;
use crate::decode::pumpfun_event::pf_decoded;
use crate::decode::pumpfun_event::process_pumpfun_event_instruction;
use crate::decode::pumpswap::process_pumpswap_swap_instruction;
use crate::decode::pumpswap::pumpswap_decoded;
use crate::decode::raydium_ammv4::ammv4_decoded;
use crate::decode::raydium_ammv4::process_raydium_ammv4_swap_instruction;
use crate::decode::raydium_cpmm::cpmm_decoded;
use crate::decode::raydium_cpmm::process_raydium_cpmm_swap_instruction;
use crate::decode::raydium_launchpad::launchpad_decoded;
use crate::decode::raydium_launchpad::process_raydium_launchpad_swap_instruction;
use crate::tables::FeeConfigEntry;
use crate::types::DecodeError;
use crate::types::Instruction;
use crate::types::InstructionType;
use crate::types::Outcome;
use crate::types::Pools;
use crate::walk::report::Step;
use crate::walk::report::WalkContext;
use crate::walk::report::WalkState;
use crate::walk::report::context_of;
use crate::walk::report::missing_companion;
use crate::walk::report::outcome_views;
use crate::walk::report::provenance_at;
use crate::walk::report::push_outcome;
use crate::walk::report::report_swap;
use crate::walk::report::reported;
use crate::walk::report::swap_outcome;
use crate::walk::report::with_outcome;
use crate::signers::Signers;

verus! {

/// Whether the program of `instruction`, looked up in `account_keys`, is
/// the Pumpswap program.
pub open spec fn issued_by_pumpswap(instruction: Instruction, account_keys: Seq<Address>) -> bool {
    (instruction.program_id_index as int) < account_keys.len() && account_keys[instruction.program_id_index as int]@
        == constants::PUMP_SWAP_PROGRAM@
}

/// The position of the first instruction from `from` on that the Pumpswap
/// program issued.
pub open spec fn pumpswap_event_position(
    instructions: Seq<Instruction>,
    account_keys: Seq<Address>,
    from: int,
) -> Option<int>
    decreases instructions.len() - from,
{
    if from < 0 || from >= instructions.len() {
        None
    } else if issued_by_pumpswap(instructions[from], account_keys) {
        Some(from)
    } else {
        pumpswap_event_position(instructions, account_keys, from + 1)
    }
}

/// The step that the walk takes at the nested instruction at `position`.
///
/// A Launchpad swap takes the instruction behind it as its event. A CPMM or
/// an AMM v4 swap takes the two instructions behind it as its transfers. A
/// Pumpswap swap has its event in the first instruction behind it that the
/// Pumpswap program issued; it takes none of the instructions behind it, so
/// that those between the swap and its event are walked in their turn, and a
/// trade among them is decoded. A bonding-curve trade event is decoded by
/// itself. The companions are looked for before anything is decoded: a swap
/// whose companions the list does not hold is reported as missing them and
/// taken alone. Every other instruction is passed over; a nested
/// instruction is never a bonding-curve creation.
pub open spec fn nested_step(
    context: WalkContext,
    instructions: Seq<Instruction>,
    position: int,
    balances: Map<u8, u64>,
    ordinal: u8,
) -> Step {
    let instruction = instructions[position];
    let tag = classification(instruction).0;
    let direction = classification(instruction).1;
    let provenance = provenance_at(context, ordinal);
    if tag == InstructionType::RaydiumLaunchpadSwap {
        if position + 1 < instructions.len() {
            Step {
                consumed: 2,
                balances,
                outcome: Some(
                    swap_outcome(
                        ordinal,
                        launchpad_decoded(
                            instruction,
                            instructions[position + 1],
                            direction,
                            provenance,
                        ),
                    ),
                ),
            }
        } else {
            Step {
                consumed: 1,
                balances,
                outcome: Some(missing_companion(ordinal, Pools::RaydiumLaunchpad)),
            }
        }
    } else if tag == InstructionType::RaydiumCpmmSwap {
        if position + 3 <= instructions.len() {
            let decoded = cpmm_decoded(
                instruction,
                instructions.subrange(position + 1, position + 3),
                balances,
                context.fee_config,
                provenance,
            );
            Step {
                consumed: 3,
                balances: decoded.0,
                outcome: Some(swap_outcome(ordinal, decoded.1)),
            }
        } else {
            Step {
                consumed: 1,
                balances,
                outcome: Some(missing_companion(ordinal, Pools::RaydiumCpmm)),
            }
        }
    } else if tag == InstructionType::RaydiumAmmV4Swap {
        if position + 3 <= instructions.len() {
            let decoded = ammv4_decoded(
                instruction,
                instructions.subrange(position + 1, position + 3),
                context.ta_mint,
                balances,
                provenance,
            );
            Step {
                consumed: 3,
                balances: decoded.0,
                outcome: Some(swap_outcome(ordinal, decoded.1)),
            }
        } else {
            Step {
                consumed: 1,
                balances,
                outcome: Some(missing_companion(ordinal, Pools::RaydiumAmmV4)),
            }
        }
    } else if tag == InstructionType::PumpswapSwap {
        match pumpswap_event_position(instructions, context.account_keys, position + 1) {
            Some(event_position) => Step {
                consumed: 1,
                balances,
                outcome: Some(
                    swap_outcome(
                        ordinal,
                        pumpswap_decoded(
                            instruction,
                            instructions[event_position],
                            direction,
                            provenance,
                        ),
                    ),
                ),
            },
            None => Step {
                consumed: 1,
                balances,
                outcome: Some(missing_companion(ordinal, Pools::PumpswapAmm)),
            },
        }
    } else if tag == InstructionType::PfBondingCurveSwap {
        Step {
            consumed: 1,
            balances,
            outcome: Some(swap_outcome(ordinal, pf_decoded(instruction, provenance))),
        }
    } else {
        Step { consumed: 1, balances, outcome: None }
    }
}

/// A found event lies behind the position that the search began at, inside
/// the list, and no instruction between the two was issued by Pumpswap.
pub proof fn lemma_pumpswap_event_position(
    instructions: Seq<Instruction>,
    account_keys: Seq<Address>,
    from: int,
)
    requires
        0 <= from,
    ensures
        match pumpswap_event_position(instructions, account_keys, from) {
            Some(found) => {
                &&& from <= found < instructions.len()
                &&& issued_by_pumpswap(instructions[found], account_keys)
                &&& forall|k: int|
                    from <= k < found ==> !issued_by_pumpswap(
                        #[trigger] instructions[k],
                        account_keys,
                    )
            },
            None => forall|k: int|
                from <= k < instructions.len() ==> !issued_by_pumpswap(
                    #[trigger] instructions[k],
                    account_keys,
                ),
        },
    decreases instructions.len() - from,
{
    if from < instructions.len() && !issued_by_pumpswap(instructions[from], account_keys) {
        lemma_pumpswap_event_position(instructions, account_keys, from + 1);
    }
}

/// Finds the first instruction from `from` on that the Pumpswap program
/// issued.
pub fn find_pumpswap_event(
    instructions: &Vec<Instruction>,
    account_keys: &Vec<Address>,
    from: usize,
) -> (r: Option<usize>)
    ensures
        match r {
            Some(found) => pumpswap_event_position(instructions@, account_keys@, from as int)
                == Some(found as int),
            None => pumpswap_event_position(instructions@, account_keys@, from as int).is_none(),
        },
{
    let program = Address::new(constants::PUMP_SWAP_PROGRAM);
    let mut i: usize = from;
    while i < instructions.len()
        invariant
            from <= i,
            program@ == constants::PUMP_SWAP_PROGRAM@,
            pumpswap_event_position(instructions@, account_keys@, from as int)
                == pumpswap_event_position(instructions@, account_keys@, i as int),
        decreases instructions@.len() - i,
    {
        let key_index: usize = instructions[i].program_id_index as usize;
        if key_index < account_keys.len() && account_keys[key_index].same(&program) {
            return Some(i);
        }
        i = i + 1;
    }
    None
}

/// Takes the step of the walk at the nested instruction at `position`:
/// decodes the instruction where it is a trade, and tells how many
/// instructions the step took and what it reports.
pub fn take_nested_step(
    inner_instructions: &Vec<Instruction>,
    position: usize,
    account_keys: &Vec<Address>,
    ta_mint: &HashMap<u8, Address>,
    running_token_balances: &mut HashMap<u8, u64>,
    fee_config: &Vec<FeeConfigEntry>,
    block_time: u64,
    slot: u64,
    index: u64,
    atomic_instruction_index: u8,
    signers: &Signers,
    signature: &Signature,
) -> (r: (usize, Option<Outcome>))
    requires
        position < inner_instructions@.len(),
    ensures
        ({
            let step = nested_step(
                context_of(
                    account_keys@,
                    ta_mint@,
                    fee_config@,
                    block_time,
                    slot,
                    index,
                    *signature,
                    signers@,
                ),
                inner_instructions@,
                position as int,
                old(running_token_balances)@,
                atomic_instruction_index,
            );
            &&& r.0 == step.consumed
            &&& final(running_token_balances)@ == step.balances
            &&& reported(r.1) == step.outcome
        }),
        1 <= r.0 <= inner_instructions@.len() - position,
{
    let length: usize = inner_instructions.len();
    let instruction: &Instruction = &inner_instructions[position];
    let (instruction_type, swap_direction) = classify_instruction(instruction);
    match instruction_type {
        InstructionType::RaydiumLaunchpadSwap => {
            if length - position < 2 {
                return (
                    1,
                    Some(
                        Outcome::Failed {
                            atomic_instruction_index,
                            error: DecodeError::MissingCompanionInstruction {
                                protocol: Pools::RaydiumLaunchpad,
                            },
                        },
                    ),
                );
            }
            let event: &Instruction = &inner_instructions[position + 1];
            let decoded = process_raydium_launchpad_swap_instruction(
                instruction,
                event,
                swap_direction,
                block_time,
                slot,
                index,
                atomic_instruction_index,
                signers,
                signature,
            );
            (2, Some(report_swap(atomic_instruction_index, decoded)))
        },
        InstructionType::RaydiumCpmmSwap => {
            if length - position < 3 {
                return (
                    1,
                    Some(
                        Outcome::Failed {
                            atomic_instruction_index,
                            error: DecodeError::MissingCompanionInstruction {
                                protocol: Pools::RaydiumCpmm,
                            },
                        },
                    ),
                );
            }
            let transfers: &[Instruction] = slice_subrange(
                inner_instructions.as_slice(),
                position + 1,
                position + 3,
            );
            let decoded = process_raydium_cpmm_swap_instruction(
                instruction,
                transfers,
                running_token_balances,
                fee_config,
                block_time,
                slot,
                index,
                atomic_instruction_index,
                signers,
                signature,
            );
            (3, Some(report_swap(atomic_instruction_index, decoded)))
        },
        InstructionType::RaydiumAmmV4Swap => {
            if length - position < 3 {
                return (
                    1,
                    Some(
                        Outcome::Failed {
                            atomic_instruction_index,
                            error: DecodeError::MissingCompanionInstruction {
                                protocol: Pools::RaydiumAmmV4,
                            },
                        },
                    ),
                );
            }
            let transfers: &[Instruction] = slice_subrange(
                inner_instructions.as_slice(),
                position + 1,
                position + 3,
            );
            let decoded = process_raydium_ammv4_swap_instruction(
                instruction,
                transfers,
                ta_mint,
                running_token_balances,
                block_time,
                slot,
                index,
                atomic_instruction_index,
                signers,
                signature,
            );
            (3, Some(report_swap(atomic_instruction_index, decoded)))
        },
        InstructionType::PumpswapSwap => {
            proof {
                lemma_pumpswap_event_position(
                    inner_instructions@,
                    account_keys@,
                    position + 1,
                );
            }
            match find_pumpswap_event(inner_instructions, account_keys, position + 1) {
                Some(event_position) => {
                    let event: &Instruction = &inner_instructions[event_position];
                    let decoded = process_pumpswap_swap_instruction(
                        instruction,
                        event,
                        swap_direction,
                        block_time,
                        slot,
                        index,
                        atomic_instruction_index,
                        signers,
                        signature,
                    );
                    (1, Some(report_swap(atomic_instruction_index, decoded)))
                },
                None => (
                    1,
                    Some(
                        Outcome::Failed {
                            atomic_instruction_index,
                            error: DecodeError::MissingCompanionInstruction {
                                protocol: Pools::PumpswapAmm,
                            },
                        },
                    ),
                ),
            }
        },
        InstructionType::PfBondingCurveSwap => {
            let decoded = process_pumpfun_event_instruction(
                instruction,
                block_time,
                slot,
                index,
                atomic_instruction_index,
                signers,
                signature,
            );
            (1, Some(report_swap(atomic_instruction_index, decoded)))
        },
        _ => (1, None),
    }
}

/// The state in which the walk over a list of nested instructions ends,
/// begun at `position` in the state `state`. Each step advances the ordinal
/// by the number of instructions that it took. Where the ordinal would leave
/// its range, the walk stops behind that step and is not completed.
pub open spec fn nested_walk(
    context: WalkContext,
    instructions: Seq<Instruction>,
    position: int,
    state: WalkState,
) -> WalkState
    decreases instructions.len() - position,
{
    if position < 0 || position >= instructions.len() {
        state
    } else {
        let step = nested_step(context, instructions, position, state.balances, state.ordinal);
        let outcomes = with_outcome(state.outcomes, step.outcome);
        if step.consumed < 1 || position + step.consumed > instructions.len() {
            // No step is like this: each takes its instruction and stays in the list.
            state
        } else if state.ordinal + step.consumed > u8::MAX {
            WalkState {
                balances: step.balances,
                ordinal: state.ordinal,
                outcomes,
                completed: false,
            }
        } else {
            nested_walk(
                context,
                instructions,
                position + step.consumed,
                WalkState {
                    balances: step.balances,
                    ordinal: (state.ordinal + step.consumed) as u8,
                    outcomes,
                    completed: state.completed,
                },
            )
        }
    }
}

/// Walks over the nested instructions of one top-level instruction in
/// program order: decodes every trade among them, books it in the running
/// balances, appends what each matched instruction yields to `events`, and
/// advances the ordinal past every instruction.
///
/// A swap's companions are looked for behind it before it is decoded. The
/// walk passes over the event of a Launchpad swap and the transfers of a
/// CPMM or an AMM v4 swap, which belong to the swap; it goes through what
/// lies between a Pumpswap swap and its event like through any other
/// instruction.
///
/// The walk stops with `ArithmeticOverflow` where the ordinal would leave
/// its range; what was reported until then stays in `events`. A trade that
/// cannot be decoded is reported as failed and does not stop the walk.
pub fn inner_instructions_loop(
    inner_instructions: &Vec<Instruction>,
    account_keys: &Vec<Address>,
    ta_mint: &HashMap<u8, Address>,
    running_token_balances: &mut HashMap<u8, u64>,
    fee_config: &Vec<FeeConfigEntry>,
    events: &mut Vec<Outcome>,
    block_time: u64,
    slot: u64,
    index: u64,
    atomic_instruction_index: &mut u8,
    signers: &Signers,
    signature: &Signature,
) -> (r: Result<(), DecodeError>)
    ensures
        ({
            let end = nested_walk(
                context_of(
                    account_keys@,
                    ta_mint@,
                    fee_config@,
                    block_time,
                    slot,
                    index,
                    *signature,
                    signers@,
                ),
                inner_instructions@,
                0,
                WalkState {
                    balances: old(running_token_balances)@,
                    ordinal: *old(atomic_instruction_index),
                    outcomes: outcome_views(old(events)@),
                    completed: true,
                },
            );
            &&& final(running_token_balances)@ == end.balances
            &&& *final(atomic_instruction_index) == end.ordinal
            &&& outcome_views(final(events)@) == end.outcomes
            &&& r == if end.completed {
                Ok::<(), DecodeError>(())
            } else {
                Err::<(), DecodeError>(DecodeError::ArithmeticOverflow)
            }
        }),
{
    let ghost context = context_of(
        account_keys@,
        ta_mint@,
        fee_config@,
        block_time,
        slot,
        index,
        *signature,
        signers@,
    );
    let ghost begin = WalkState {
        balances: running_token_balances@,
        ordinal: *atomic_instruction_index,
        outcomes: outcome_views(events@),
        completed: true,
    };
    let mut instr_index: usize = 0;
    while instr_index < inner_instructions.len()
        invariant
            instr_index <= inner_instructions@.len(),
            begin == (WalkState {
                balances: old(running_token_balances)@,
                ordinal: *old(atomic_instruction_index),
                outcomes: outcome_views(old(events)@),
                completed: true,
            }),
            context == context_of(
                account_keys@,
                ta_mint@,
                fee_config@,
                block_time,
                slot,
                index,
                *signature,
                signers@,
            ),
            nested_walk(context, inner_instructions@, 0, begin) == nested_walk(
                context,
                inner_instructions@,
                instr_index as int,
                WalkState {
                    balances: running_token_balances@,
                    ordinal: *atomic_instruction_index,
                    outcomes: outcome_views(events@),
                    completed: true,
                },
            ),
        decreases inner_instructions@.len() - instr_index,
    {
        let ordinal: u8 = *atomic_instruction_index;
        let (consumed, outcome) = take_nested_step(
            inner_instructions,
            instr_index,
            account_keys,
            ta_mint,
            running_token_balances,
            fee_config,
            block_time,
            slot,
            index,
            ordinal,
            signers,
            signature,
        );
        push_outcome(events, outcome);
        if consumed > (u8::MAX - ordinal) as usize {
            return Err(DecodeError::ArithmeticOverflow);
        }
        *atomic_instruction_index = ordinal + (consumed as u8);
        instr_index = instr_index + consumed;
    }
    Ok(())
}

} // verus!
