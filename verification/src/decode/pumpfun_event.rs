//! Trades on the Pumpfun bonding curve.

use vstd::prelude::*;
use vstd::slice::slice_subrange;
use crate::address::Address;
use crate::address::Signature;
use crate::address::address_of;
use crate::address::lemma_address_of;
use crate::constants;
use crate::decode::common::PoolQuote;
use crate::decode::common::quote_balances;
use crate::decode::common::quoted_balances;
use crate::math::difference;
use crate::math::difference_of;
use crate::math::sum;
use crate::math::sum_of;
use crate::outside::find_program_address;
use crate::outside::program_derived_address;
use crate::protocol_idls::pumpfun::PfTradeEventIdlCurrent;
use crate::protocol_idls::pumpfun::PfTradeEventIdlOld;
use crate::types::DecodeError;
use crate::types::Instruction;
use crate::types::Pools;
use crate::types::Provenance;
use crate::types::SwapDirection;
use crate::types::SwapTx;
use crate::types::SwapTxView;
use crate::types::provenance_of;
use crate::types::swap_result_view;
use crate::signers::Signers;

verus! {

/// What a trade event says, whichever layout it has.
#[derive(Clone, Copy, Debug)]
pub struct PfTrade {
    pub mint: Address,
    pub is_buy: bool,
    /// The SOL that reached or left the curve, fees excluded.
    pub sol_amount: u64,
    pub token_amount: u64,
    pub total_fee: u64,
    /// The curve's real reserves after the trade.
    pub real_token_reserves: u64,
    pub real_sol_reserves: u64,
    /// The curve's virtual reserves after the trade.
    pub virtual_token_reserves: u64,
    pub virtual_sol_reserves: u64,
    pub fee_fraction: u64,
}

/// Whether an event of the current family may have `length` bytes: the
/// layout alone, or the layout followed by an instruction name.
pub open spec fn pf_current_length(length: nat) -> bool {
    ||| length == constants::PF_EVENT_LEN_CURRENT
    ||| length == constants::PF_EVENT_LEN_BUY
    ||| length == constants::PF_EVENT_LEN_SELL
    ||| length == constants::PF_EVENT_LEN_BUY_EXACT_SOL_IN
}

/// What an event of the current layout says. The fees are the protocol's
/// and the creator's; the fee fraction is the sum of their basis points.
pub open spec fn pf_current_trade(event: PfTradeEventIdlCurrent) -> Result<PfTrade, DecodeError> {
    let total_fee = sum_of(event.creator_fee, event.fee);
    let basis_points = event.fee_basis_points + event.creator_fee_basis_points;
    if total_fee is Err {
        Err(total_fee->Err_0)
    } else if basis_points * constants::FEE_FRACTION_PER_BASIS_POINT > u64::MAX {
        Err(DecodeError::ArithmeticOverflow)
    } else {
        Ok(
            PfTrade {
                mint: event.mint,
                is_buy: event.is_buy,
                sol_amount: event.sol_amount,
                token_amount: event.token_amount,
                total_fee: total_fee->Ok_0,
                real_token_reserves: event.real_token_reserves,
                real_sol_reserves: event.real_sol_reserves,
                virtual_token_reserves: event.virtual_token_reserves,
                virtual_sol_reserves: event.virtual_sol_reserves,
                fee_fraction: (basis_points * constants::FEE_FRACTION_PER_BASIS_POINT) as u64,
            },
        )
    }
}

/// What an event of the old layout says. The fee is a hundredth of the SOL
/// amount, the fee fraction 1%, and the real reserves are the virtual ones
/// less what a new curve's virtual reserves exceed its real ones by.
pub open spec fn pf_old_trade(event: PfTradeEventIdlOld) -> Result<PfTrade, DecodeError> {
    let real_token = difference_of(
        event.virtual_token_reserves,
        constants::PF_INIT_VIRTUAL_TOKEN_RESERVE_DIFF,
    );
    let real_sol = difference_of(event.virtual_sol_reserves, constants::PF_INIT_VIRTUAL_SOL_RESERVES);
    if real_token is Err {
        Err(real_token->Err_0)
    } else if real_sol is Err {
        Err(real_sol->Err_0)
    } else {
        Ok(
            PfTrade {
                mint: event.mint,
                is_buy: event.is_buy,
                sol_amount: event.sol_amount,
                token_amount: event.token_amount,
                total_fee: (event.sol_amount / 100) as u64,
                real_token_reserves: real_token->Ok_0,
                real_sol_reserves: real_sol->Ok_0,
                virtual_token_reserves: event.virtual_token_reserves,
                virtual_sol_reserves: event.virtual_sol_reserves,
                fee_fraction: constants::PF_OLD_FEE_FRACTION,
            },
        )
    }
}

/// What the payload of a trade event says. A payload of the current family
/// is read in its first 266 bytes, one of 137 bytes in the 121 bytes of the
/// old layout's fields; a payload of any other length is not recognized.
pub open spec fn pf_trade(data: Seq<u8>) -> Result<PfTrade, DecodeError> {
    let unrecognized = Err::<PfTrade, DecodeError>(
        DecodeError::UnrecognizedEventLayout {
            protocol: Pools::PfBondingCurve,
            observed_length: data.len() as usize,
        },
    );
    if pf_current_length(data.len()) {
        let fields = data.subrange(0, constants::PF_EVENT_LEN_CURRENT as int);
        if PfTradeEventIdlCurrent::recognizes(fields) {
            pf_current_trade(PfTradeEventIdlCurrent::of(fields))
        } else {
            unrecognized
        }
    } else if data.len() == constants::PF_EVENT_LEN_OLD {
        let fields = data.subrange(0, constants::PF_EVENT_OLD_FIELDS_LEN as int);
        if PfTradeEventIdlOld::recognizes(fields) {
            pf_old_trade(PfTradeEventIdlOld::of(fields))
        } else {
            unrecognized
        }
    } else {
        unrecognized
    }
}

/// The address of the bonding curve of `mint`: the address derived from the
/// seed `bonding-curve` and the mint under the bonding-curve program.
pub open spec fn bonding_curve_of(mint: Address) -> Option<Address> {
    match program_derived_address(
        constants::BONDING_CURVE_SEED@,
        mint@,
        constants::PUMP_BONDING_CURVE_PROGRAM@,
    ) {
        Some(bytes) => Some(address_of(bytes)),
        None => None,
    }
}

/// The event of a trade on the curve at `market`, or the reason why there
/// is none. A purchase spends SOL, token B, and sends in the SOL amount and
/// the fee; a sale spends the token, token A, and receives the SOL amount
/// less the fee. The balances are the curve's real reserves, the prices
/// those of its virtual reserves.
pub open spec fn pf_event(trade: PfTrade, market: Option<Address>, provenance: Provenance) -> Result<
    SwapTxView,
    DecodeError,
> {
    let amount_in = if trade.is_buy {
        sum_of(trade.sol_amount, trade.total_fee)
    } else {
        Ok(trade.token_amount)
    };
    let amount_received = if trade.is_buy {
        Ok(trade.token_amount)
    } else {
        difference_of(trade.sol_amount, trade.total_fee)
    };
    let prices = quoted_balances(trade.virtual_token_reserves, trade.virtual_sol_reserves);
    if market is None {
        Err(DecodeError::NoBondingCurveAddress { mint: trade.mint })
    } else if amount_in is Err {
        Err(amount_in->Err_0)
    } else if amount_received is Err {
        Err(amount_received->Err_0)
    } else if prices is Err {
        Err(prices->Err_0)
    } else {
        Ok(
            SwapTxView {
                pool: Pools::PfBondingCurve,
                direction: if trade.is_buy {
                    SwapDirection::BToA
                } else {
                    SwapDirection::AToB
                },
                block_time: provenance.block_time,
                slot: provenance.slot,
                index: provenance.index,
                atomic_instruction_index: provenance.atomic_instruction_index,
                fee_fraction_lp: trade.fee_fraction,
                swapped_amount_in: amount_in->Ok_0,
                swapped_amount_received: amount_received->Ok_0,
                pool_token_a_vault_amount: trade.real_token_reserves,
                pool_token_b_vault_amount: trade.real_sol_reserves,
                price_a_b_lp: prices->Ok_0.price_a_b,
                price_b_a_lp: prices->Ok_0.price_b_a,
                token_a_address: trade.mint,
                token_b_address: address_of(constants::WSOL_MINT@),
                market_address: market->Some_0,
                signature: provenance.signature,
                signers: provenance.signers,
            },
        )
    }
}

/// The event of a trade event instruction, or the reason why there is none.
pub open spec fn pf_decoded(instruction: Instruction, provenance: Provenance) -> Result<
    SwapTxView,
    DecodeError,
> {
    match pf_trade(instruction.data@) {
        Err(error) => Err(error),
        Ok(trade) => pf_event(trade, bonding_curve_of(trade.mint), provenance),
    }
}

/// Works out what an event of the current layout says.
pub fn read_pf_current_trade(event: &PfTradeEventIdlCurrent) -> (r: Result<PfTrade, DecodeError>)
    ensures
        r == pf_current_trade(*event),
{
    let total_fee: u64 = match sum(event.creator_fee, event.fee) {
        Ok(fee) => fee,
        Err(error) => {
            return Err(error);
        },
    };
    let basis_points: u128 = (event.fee_basis_points as u128) + (
    event.creator_fee_basis_points as u128);
    let scaled: u128 = basis_points * constants::FEE_FRACTION_PER_BASIS_POINT;
    if scaled > u64::MAX as u128 {
        return Err(DecodeError::ArithmeticOverflow);
    }
    Ok(
        PfTrade {
            mint: event.mint,
            is_buy: event.is_buy,
            sol_amount: event.sol_amount,
            token_amount: event.token_amount,
            total_fee,
            real_token_reserves: event.real_token_reserves,
            real_sol_reserves: event.real_sol_reserves,
            virtual_token_reserves: event.virtual_token_reserves,
            virtual_sol_reserves: event.virtual_sol_reserves,
            fee_fraction: scaled as u64,
        },
    )
}

/// Works out what an event of the old layout says.
pub fn read_pf_old_trade(event: &PfTradeEventIdlOld) -> (r: Result<PfTrade, DecodeError>)
    ensures
        r == pf_old_trade(*event),
{
    let real_token_reserves: u64 = match difference(
        event.virtual_token_reserves,
        constants::PF_INIT_VIRTUAL_TOKEN_RESERVE_DIFF,
    ) {
        Ok(amount) => amount,
        Err(error) => {
            return Err(error);
        },
    };
    let real_sol_reserves: u64 = match difference(
        event.virtual_sol_reserves,
        constants::PF_INIT_VIRTUAL_SOL_RESERVES,
    ) {
        Ok(amount) => amount,
        Err(error) => {
            return Err(error);
        },
    };
    Ok(
        PfTrade {
            mint: event.mint,
            is_buy: event.is_buy,
            sol_amount: event.sol_amount,
            token_amount: event.token_amount,
            total_fee: event.sol_amount / 100,
            real_token_reserves,
            real_sol_reserves,
            virtual_token_reserves: event.virtual_token_reserves,
            virtual_sol_reserves: event.virtual_sol_reserves,
            fee_fraction: constants::PF_OLD_FEE_FRACTION,
        },
    )
}

/// Reads what the payload of a trade event says.
pub fn read_pf_trade(data: &[u8]) -> (r: Result<PfTrade, DecodeError>)
    ensures
        r == pf_trade(data@),
{
    let length: usize = data.len();
    if length == constants::PF_EVENT_LEN_CURRENT || length == constants::PF_EVENT_LEN_BUY || length
        == constants::PF_EVENT_LEN_SELL || length == constants::PF_EVENT_LEN_BUY_EXACT_SOL_IN {
        let fields: &[u8] = slice_subrange(data, 0, constants::PF_EVENT_LEN_CURRENT);
        match PfTradeEventIdlCurrent::try_from_slice(fields) {
            Some(event) => read_pf_current_trade(&event),
            None => Err(
                DecodeError::UnrecognizedEventLayout {
                    protocol: Pools::PfBondingCurve,
                    observed_length: length,
                },
            ),
        }
    } else if length == constants::PF_EVENT_LEN_OLD {
        let fields: &[u8] = slice_subrange(data, 0, constants::PF_EVENT_OLD_FIELDS_LEN);
        match PfTradeEventIdlOld::try_from_slice(fields) {
            Some(event) => read_pf_old_trade(&event),
            None => Err(
                DecodeError::UnrecognizedEventLayout {
                    protocol: Pools::PfBondingCurve,
                    observed_length: length,
                },
            ),
        }
    } else {
        Err(
            DecodeError::UnrecognizedEventLayout {
                protocol: Pools::PfBondingCurve,
                observed_length: length,
            },
        )
    }
}

/// Derives the address of the bonding curve of `mint`.
pub fn derive_bonding_curve(mint: &Address) -> (r: Option<Address>)
    ensures
        r == bonding_curve_of(*mint),
{
    match find_program_address(
        constants::BONDING_CURVE_SEED.as_slice(),
        &mint.bytes,
        &constants::PUMP_BONDING_CURVE_PROGRAM,
    ) {
        Some(bytes) => {
            let address = Address { bytes };
            proof {
                lemma_address_of(address);
            }
            Some(address)
        },
        None => None,
    }
}

/// Builds the event of a trade on the bonding curve at `market`.
pub fn decode_pumpfun_trade(
    trade: &PfTrade,
    market: Option<Address>,
    block_time: u64,
    slot: u64,
    index: u64,
    atomic_instruction_index: u8,
    signers: &Signers,
    signature: &Signature,
) -> (r: Result<SwapTx, DecodeError>)
    ensures
        swap_result_view(r) == pf_event(
            *trade,
            market,
            provenance_of(block_time, slot, index, atomic_instruction_index, *signature, signers@),
        ),
{
    let market_address: Address = match market {
        Some(address) => address,
        None => {
            return Err(DecodeError::NoBondingCurveAddress { mint: trade.mint });
        },
    };
    let direction: SwapDirection;
    let swapped_amount_in: u64;
    let swapped_amount_received: u64;
    if trade.is_buy {
        direction = SwapDirection::BToA;
        swapped_amount_in = match sum(trade.sol_amount, trade.total_fee) {
            Ok(amount) => amount,
            Err(error) => {
                return Err(error);
            },
        };
        swapped_amount_received = trade.token_amount;
    } else {
        direction = SwapDirection::AToB;
        swapped_amount_in = trade.token_amount;
        swapped_amount_received = match difference(trade.sol_amount, trade.total_fee) {
            Ok(amount) => amount,
            Err(error) => {
                return Err(error);
            },
        };
    }
    let prices: PoolQuote = match quote_balances(
        trade.virtual_token_reserves,
        trade.virtual_sol_reserves,
    ) {
        Ok(prices) => prices,
        Err(error) => {
            return Err(error);
        },
    };
    let wsol = Address { bytes: constants::WSOL_MINT };
    proof {
        lemma_address_of(wsol);
    }
    Ok(
        SwapTx {
            pool: Pools::PfBondingCurve,
            direction,
            block_time,
            slot,
            index,
            atomic_instruction_index,
            fee_fraction_lp: trade.fee_fraction,
            swapped_amount_in,
            swapped_amount_received,
            pool_token_a_vault_amount: trade.real_token_reserves,
            pool_token_b_vault_amount: trade.real_sol_reserves,
            price_a_b_lp: prices.price_a_b,
            price_b_a_lp: prices.price_b_a,
            token_a_address: trade.mint,
            token_b_address: wsol,
            market_address,
            signature: *signature,
            signers: signers.copy(),
        },
    )
}

/// Decodes a trade on the Pumpfun bonding curve from its event
/// instruction. The event alone holds the whole trade; the address of the
/// curve is derived from the mint.
pub fn process_pumpfun_event_instruction(
    instruction: &Instruction,
    block_time: u64,
    slot: u64,
    index: u64,
    atomic_instruction_index: u8,
    signers: &Signers,
    signature: &Signature,
) -> (r: Result<SwapTx, DecodeError>)
    ensures
        swap_result_view(r) == pf_decoded(
            *instruction,
            provenance_of(block_time, slot, index, atomic_instruction_index, *signature, signers@),
        ),
{
    let trade: PfTrade = match read_pf_trade(instruction.data) {
        Ok(trade) => trade,
        Err(error) => {
            return Err(error);
        },
    };
    let market: Option<Address> = derive_bonding_curve(&trade.mint);
    decode_pumpfun_trade(
        &trade,
        market,
        block_time,
        slot,
        index,
        atomic_instruction_index,
        signers,
        signature,
    )
}

} // verus!
