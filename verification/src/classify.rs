//! Recognition of an instruction's protocol and action.

use vstd::prelude::*;
use crate::address::Address;
use crate::bytes::bytes_match;
use crate::bytes::has_bytes_at;
use crate::constants;
use crate::types::Instruction;
use crate::types::InstructionType;
use crate::types::SwapDirection;

verus! {

/// Whether the instruction calls the program at `program`.
pub open spec fn calls_program(instruction: Instruction, program: Seq<u8>) -> bool {
    instruction.program_key() matches Some(key) && key@ == program
}

/// Whether the instruction's program is one of the supported protocols'.
pub open spec fn calls_known_program(instruction: Instruction) -> bool {
    ||| calls_program(instruction, constants::RAYDIUM_AMM_PROGRAM@)
    ||| calls_program(instruction, constants::RAYDIUM_CPMM_PROGRAM@)
    ||| calls_program(instruction, constants::RAYDIUM_LAUNCHPAD_PROGRAM@)
    ||| calls_program(instruction, constants::PUMP_SWAP_PROGRAM@)
    ||| calls_program(instruction, constants::PUMP_BONDING_CURVE_PROGRAM@)
}

/// Tests the instruction's program against `program`.
pub fn program_is(instruction: &Instruction, program: &[u8; 32]) -> (r: bool)
    ensures
        r == calls_program(*instruction, program@),
{
    match instruction.program_id() {
        Some(key) => key.same(&Address::new(*program)),
        None => false,
    }
}

/// Whether the payload starts with the bytes of `tag`.
pub open spec fn starts_with(instruction: Instruction, tag: Seq<u8>) -> bool {
    has_bytes_at(instruction.data@, 0, tag)
}

/// Whether the instruction is a swap on Raydium AMM v4.
pub open spec fn raydium_ammv4_swap(instruction: Instruction) -> bool {
    &&& instruction.data@.len() >= constants::AMMV4_MIN_DATA_LEN
    &&& instruction.accounts@.len() >= constants::AMMV4_MIN_ACCOUNTS
    &&& calls_program(instruction, constants::RAYDIUM_AMM_PROGRAM@)
    &&& (instruction.data@[0] == constants::AMMV4_SWAP_BASE_IN || instruction.data@[0]
        == constants::AMMV4_SWAP_BASE_OUT)
}

/// Whether the instruction is a swap on Raydium CPMM.
pub open spec fn raydium_cpmm_swap(instruction: Instruction) -> bool {
    &&& instruction.data@.len() >= constants::CPMM_MIN_DATA_LEN
    &&& instruction.accounts@.len() >= constants::CPMM_MIN_ACCOUNTS
    &&& calls_program(instruction, constants::RAYDIUM_CPMM_PROGRAM@)
    &&& (starts_with(instruction, constants::CPMM_SWAP_BASE_INPUT@) || starts_with(
        instruction,
        constants::CPMM_SWAP_BASE_OUTPUT@,
    ))
}

/// The direction of a Raydium Launchpad swap, where the instruction is one:
/// a buy spends token B, a sell spends token A.
pub open spec fn raydium_launchpad_swap(instruction: Instruction) -> Option<SwapDirection> {
    if instruction.data@.len() >= constants::LAUNCHPAD_MIN_DATA_LEN && instruction.accounts@.len()
        >= constants::LAUNCHPAD_MIN_ACCOUNTS && calls_program(
        instruction,
        constants::RAYDIUM_LAUNCHPAD_PROGRAM@,
    ) {
        if starts_with(instruction, constants::LAUNCHPAD_BUY_EXACT_IN@) || starts_with(
            instruction,
            constants::LAUNCHPAD_BUY_EXACT_OUT@,
        ) {
            Some(SwapDirection::BToA)
        } else if starts_with(instruction, constants::LAUNCHPAD_SELL_EXACT_IN@) || starts_with(
            instruction,
            constants::LAUNCHPAD_SELL_EXACT_OUT@,
        ) {
            Some(SwapDirection::AToB)
        } else {
            None
        }
    } else {
        None
    }
}

/// The direction of a Pumpswap swap, where the instruction is one: both
/// kinds of buy spend token B, a sell spends token A.
pub open spec fn pumpswap_swap(instruction: Instruction) -> Option<SwapDirection> {
    if instruction.data@.len() >= constants::PUMPSWAP_MIN_DATA_LEN && calls_program(
        instruction,
        constants::PUMP_SWAP_PROGRAM@,
    ) {
        if starts_with(instruction, constants::PUMPSWAP_BUY@) || starts_with(
            instruction,
            constants::PUMPSWAP_BUY_EXACT_QUOTE_IN@,
        ) {
            Some(SwapDirection::BToA)
        } else if starts_with(instruction, constants::PUMPSWAP_SELL@) {
            Some(SwapDirection::AToB)
        } else {
            None
        }
    } else {
        None
    }
}

/// Whether the instruction is a trade event of the Pumpfun bonding curve.
pub open spec fn pumpfun_event(instruction: Instruction) -> bool {
    &&& instruction.data@.len() >= constants::PF_EVENT_MIN_DATA_LEN
    &&& starts_with(instruction, constants::PF_EVENT_DISCRIMINATOR@)
    &&& calls_program(instruction, constants::PUMP_BONDING_CURVE_PROGRAM@)
    &&& instruction.accounts@.len() >= constants::PF_EVENT_MIN_ACCOUNTS
    &&& instruction.account_key(0) matches Some(key)
    &&& key@ == constants::PUMP_BONDING_CURVE_EVENT_AUTHORITY@
}

/// Whether the instruction creates a Pumpfun bonding curve.
pub open spec fn pf_bonding_curve_create(instruction: Instruction) -> bool {
    &&& instruction.data@.len() >= constants::PF_CREATE_MIN_DATA_LEN
    &&& instruction.accounts@.len() >= constants::PF_CREATE_MIN_ACCOUNTS
    &&& starts_with(instruction, constants::PF_CREATE_DISCRIMINATOR@)
    &&& calls_program(instruction, constants::PUMP_BONDING_CURVE_PROGRAM@)
}

/// The tag and direction of an instruction. The direction is that of the
/// discriminator for Launchpad and Pumpswap swaps, and `AToB` as a filler
/// for every other tag.
pub open spec fn classification(instruction: Instruction) -> (InstructionType, SwapDirection) {
    if raydium_ammv4_swap(instruction) {
        (InstructionType::RaydiumAmmV4Swap, SwapDirection::AToB)
    } else if raydium_cpmm_swap(instruction) {
        (InstructionType::RaydiumCpmmSwap, SwapDirection::AToB)
    } else if let Some(direction) = raydium_launchpad_swap(instruction) {
        (InstructionType::RaydiumLaunchpadSwap, direction)
    } else if let Some(direction) = pumpswap_swap(instruction) {
        (InstructionType::PumpswapSwap, direction)
    } else if pumpfun_event(instruction) {
        (InstructionType::PfBondingCurveSwap, SwapDirection::AToB)
    } else if pf_bonding_curve_create(instruction) {
        (InstructionType::PfBondingCurveCreate, SwapDirection::AToB)
    } else {
        (InstructionType::NoMatch, SwapDirection::AToB)
    }
}

/// Tests the start of the payload against `tag`.
fn data_starts_with(instruction: &Instruction, tag: &[u8]) -> (r: bool)
    ensures
        r == starts_with(*instruction, tag@),
{
    bytes_match(instruction.data, 0, tag)
}

/// Determines whether an instruction is a swap on Raydium AMM v4.
pub fn is_raydium_ammv4_swap_instruction(instruction: &Instruction) -> (r: bool)
    ensures
        r == raydium_ammv4_swap(*instruction),
{
    if instruction.data.len() < constants::AMMV4_MIN_DATA_LEN {
        return false;
    }
    if instruction.accounts.len() < constants::AMMV4_MIN_ACCOUNTS {
        return false;
    }
    if !program_is(instruction, &constants::RAYDIUM_AMM_PROGRAM) {
        return false;
    }
    instruction.data[0] == constants::AMMV4_SWAP_BASE_IN || instruction.data[0]
        == constants::AMMV4_SWAP_BASE_OUT
}

/// Determines whether an instruction is a swap on Raydium CPMM.
pub fn is_raydium_cpmm_swap_instruction(instruction: &Instruction) -> (r: bool)
    ensures
        r == raydium_cpmm_swap(*instruction),
{
    if instruction.data.len() < constants::CPMM_MIN_DATA_LEN {
        return false;
    }
    if instruction.accounts.len() < constants::CPMM_MIN_ACCOUNTS {
        return false;
    }
    if !program_is(instruction, &constants::RAYDIUM_CPMM_PROGRAM) {
        return false;
    }
    data_starts_with(instruction, constants::CPMM_SWAP_BASE_INPUT.as_slice()) || data_starts_with(
        instruction,
        constants::CPMM_SWAP_BASE_OUTPUT.as_slice(),
    )
}

/// Determines whether an instruction is a swap on Raydium Launchpad, and
/// the direction that its discriminator gives. The direction is `AToB`
/// where the instruction is no such swap.
pub fn is_raydium_launchpad_swap_instruction(instruction: &Instruction) -> (r: (
    bool,
    SwapDirection,
))
    ensures
        r.0 == raydium_launchpad_swap(*instruction).is_some(),
        r.0 ==> raydium_launchpad_swap(*instruction) == Some(r.1),
        !r.0 ==> r.1 == SwapDirection::AToB,
{
    if instruction.data.len() < constants::LAUNCHPAD_MIN_DATA_LEN {
        return (false, SwapDirection::AToB);
    }
    if instruction.accounts.len() < constants::LAUNCHPAD_MIN_ACCOUNTS {
        return (false, SwapDirection::AToB);
    }
    if !program_is(instruction, &constants::RAYDIUM_LAUNCHPAD_PROGRAM) {
        return (false, SwapDirection::AToB);
    }
    if data_starts_with(instruction, constants::LAUNCHPAD_BUY_EXACT_IN.as_slice()) {
        (true, SwapDirection::BToA)
    } else if data_starts_with(instruction, constants::LAUNCHPAD_SELL_EXACT_IN.as_slice()) {
        (true, SwapDirection::AToB)
    } else if data_starts_with(instruction, constants::LAUNCHPAD_BUY_EXACT_OUT.as_slice()) {
        (true, SwapDirection::BToA)
    } else if data_starts_with(instruction, constants::LAUNCHPAD_SELL_EXACT_OUT.as_slice()) {
        (true, SwapDirection::AToB)
    } else {
        (false, SwapDirection::AToB)
    }
}

/// Determines whether an instruction is a swap on Pumpswap, and the
/// direction that its discriminator gives. The direction is `AToB` where
/// the instruction is no such swap.
pub fn is_pumpswap_swap_instruction(instruction: &Instruction) -> (r: (bool, SwapDirection))
    ensures
        r.0 == pumpswap_swap(*instruction).is_some(),
        r.0 ==> pumpswap_swap(*instruction) == Some(r.1),
        !r.0 ==> r.1 == SwapDirection::AToB,
{
    if instruction.data.len() < constants::PUMPSWAP_MIN_DATA_LEN {
        return (false, SwapDirection::AToB);
    }
    if !program_is(instruction, &constants::PUMP_SWAP_PROGRAM) {
        return (false, SwapDirection::AToB);
    }
    if data_starts_with(instruction, constants::PUMPSWAP_BUY.as_slice()) {
        (true, SwapDirection::BToA)
    } else if data_starts_with(instruction, constants::PUMPSWAP_SELL.as_slice()) {
        (true, SwapDirection::AToB)
    } else if data_starts_with(instruction, constants::PUMPSWAP_BUY_EXACT_QUOTE_IN.as_slice()) {
        (true, SwapDirection::BToA)
    } else {
        (false, SwapDirection::AToB)
    }
}

/// Determines whether an instruction is a trade event of the Pumpfun
/// bonding curve.
pub fn is_pumpfun_event_instruction(instruction: &Instruction) -> (r: bool)
    ensures
        r == pumpfun_event(*instruction),
{
    if instruction.data.len() < constants::PF_EVENT_MIN_DATA_LEN {
        return false;
    }
    if !data_starts_with(instruction, constants::PF_EVENT_DISCRIMINATOR.as_slice()) {
        return false;
    }
    if !program_is(instruction, &constants::PUMP_BONDING_CURVE_PROGRAM) {
        return false;
    }
    if instruction.accounts.len() < constants::PF_EVENT_MIN_ACCOUNTS {
        return false;
    }
    match instruction.account(0) {
        Some(key) => key.same(&Address::new(constants::PUMP_BONDING_CURVE_EVENT_AUTHORITY)),
        None => false,
    }
}

/// Determines whether an instruction creates a Pumpfun bonding curve.
pub fn is_pf_bonding_curve_create_instruction(instruction: &Instruction) -> (r: bool)
    ensures
        r == pf_bonding_curve_create(*instruction),
{
    if instruction.data.len() < constants::PF_CREATE_MIN_DATA_LEN {
        return false;
    }
    if instruction.accounts.len() < constants::PF_CREATE_MIN_ACCOUNTS {
        return false;
    }
    if !data_starts_with(instruction, constants::PF_CREATE_DISCRIMINATOR.as_slice()) {
        return false;
    }
    program_is(instruction, &constants::PUMP_BONDING_CURVE_PROGRAM)
}

/// Classifies an instruction: its tag, and the direction of the trade where
/// the discriminator gives one. An instruction whose program is none of the
/// supported protocols' is never matched.
pub fn classify_instruction(instruction: &Instruction) -> (r: (InstructionType, SwapDirection))
    ensures
        r == classification(*instruction),
        !calls_known_program(*instruction) ==> r == (
            InstructionType::NoMatch,
            SwapDirection::AToB,
        ),
{
    if is_raydium_ammv4_swap_instruction(instruction) {
        return (InstructionType::RaydiumAmmV4Swap, SwapDirection::AToB);
    } else if is_raydium_cpmm_swap_instruction(instruction) {
        return (InstructionType::RaydiumCpmmSwap, SwapDirection::AToB);
    }
    let (is_raydium_launchpad_swap, swap_direction) = is_raydium_launchpad_swap_instruction(
        instruction,
    );
    if is_raydium_launchpad_swap {
        return (InstructionType::RaydiumLaunchpadSwap, swap_direction);
    }
    let (is_pumpswap_swap, swap_direction) = is_pumpswap_swap_instruction(instruction);
    if is_pumpswap_swap {
        (InstructionType::PumpswapSwap, swap_direction)
    } else if is_pumpfun_event_instruction(instruction) {
        (InstructionType::PfBondingCurveSwap, SwapDirection::AToB)
    } else if is_pf_bonding_curve_create_instruction(instruction) {
        (InstructionType::PfBondingCurveCreate, SwapDirection::AToB)
    } else {
        (InstructionType::NoMatch, SwapDirection::AToB)
    }
}

} // verus!
