//! What holds of every classification.

use vstd::prelude::*;
use crate::classify::calls_known_program;
use crate::classify::classification;
use crate::classify::pf_bonding_curve_create;
use crate::classify::pumpfun_event;
use crate::classify::pumpswap_swap;
use crate::classify::raydium_ammv4_swap;
use crate::classify::raydium_cpmm_swap;
use crate::classify::raydium_launchpad_swap;
use crate::constants;
use crate::types::Instruction;
use crate::types::InstructionType;

verus! {

/// The programs of the supported protocols are five different addresses.
pub proof fn lemma_programs_differ()
    ensures
        constants::RAYDIUM_AMM_PROGRAM@ != constants::RAYDIUM_CPMM_PROGRAM@,
        constants::RAYDIUM_AMM_PROGRAM@ != constants::RAYDIUM_LAUNCHPAD_PROGRAM@,
        constants::RAYDIUM_AMM_PROGRAM@ != constants::PUMP_SWAP_PROGRAM@,
        constants::RAYDIUM_AMM_PROGRAM@ != constants::PUMP_BONDING_CURVE_PROGRAM@,
        constants::RAYDIUM_CPMM_PROGRAM@ != constants::RAYDIUM_LAUNCHPAD_PROGRAM@,
        constants::RAYDIUM_CPMM_PROGRAM@ != constants::PUMP_SWAP_PROGRAM@,
        constants::RAYDIUM_CPMM_PROGRAM@ != constants::PUMP_BONDING_CURVE_PROGRAM@,
        constants::RAYDIUM_LAUNCHPAD_PROGRAM@ != constants::PUMP_SWAP_PROGRAM@,
        constants::RAYDIUM_LAUNCHPAD_PROGRAM@ != constants::PUMP_BONDING_CURVE_PROGRAM@,
        constants::PUMP_SWAP_PROGRAM@ != constants::PUMP_BONDING_CURVE_PROGRAM@,
{
    assert(constants::RAYDIUM_AMM_PROGRAM@[0] == 75);
    assert(constants::RAYDIUM_CPMM_PROGRAM@[0] == 169);
    assert(constants::RAYDIUM_LAUNCHPAD_PROGRAM@[0] == 5);
    assert(constants::PUMP_SWAP_PROGRAM@[0] == 12);
    assert(constants::PUMP_BONDING_CURVE_PROGRAM@[0] == 1);
}

/// The protocols' predicates exclude one another, so that the tag of an
/// instruction does not depend on the order in which they are tried: an
/// instruction has a protocol's tag if and only if it meets that protocol's
/// predicate.
pub proof fn lemma_classification_is_exclusive(instruction: Instruction)
    ensures
        classification(instruction).0 == InstructionType::RaydiumAmmV4Swap <==> raydium_ammv4_swap(
            instruction,
        ),
        classification(instruction).0 == InstructionType::RaydiumCpmmSwap <==> raydium_cpmm_swap(
            instruction,
        ),
        classification(instruction).0 == InstructionType::RaydiumLaunchpadSwap
            <==> raydium_launchpad_swap(instruction) is Some,
        classification(instruction).0 == InstructionType::PumpswapSwap <==> pumpswap_swap(
            instruction,
        ) is Some,
        classification(instruction).0 == InstructionType::PfBondingCurveSwap <==> pumpfun_event(
            instruction,
        ),
        classification(instruction).0 == InstructionType::PfBondingCurveCreate
            <==> pf_bonding_curve_create(instruction),
        classification(instruction).0 == InstructionType::NoMatch || calls_known_program(
            instruction,
        ),
{
    lemma_programs_differ();
    if pumpfun_event(instruction) && pf_bonding_curve_create(instruction) {
        let data = instruction.data@;
        assert(data.subrange(0, 16)[0] == constants::PF_EVENT_DISCRIMINATOR@[0]);
        assert(data.subrange(0, 8)[0] == constants::PF_CREATE_DISCRIMINATOR@[0]);
        assert(constants::PF_EVENT_DISCRIMINATOR@[0] == 228);
        assert(constants::PF_CREATE_DISCRIMINATOR@[0] == 24);
    }
}

} // verus!
