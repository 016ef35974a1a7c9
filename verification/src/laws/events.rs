//! What holds of every decoded event.

use vstd::prelude::*;
use crate::address::Address;
use crate::bytes::lex_less_from;
use crate::constants;
use crate::decode::common::PoolQuote;
use crate::decode::common::quoted_balances;
use crate::decode::pumpfun_event::PfTrade;
use crate::decode::pumpfun_event::pf_current_length;
use crate::decode::pumpfun_event::pf_event;
use crate::decode::pumpfun_event::pf_trade;
use crate::decode::pumpswap::pumpswap_buy_length;
use crate::decode::pumpswap::pumpswap_decoded;
use crate::decode::pumpswap::pumpswap_fee_fraction;
use crate::decode::pumpswap::pumpswap_trade;
use crate::decode::raydium_ammv4::ammv4_decoded;
use crate::decode::raydium_cpmm::CpmmAccounts;
use crate::decode::raydium_cpmm::cpmm_decoded;
use crate::decode::raydium_cpmm::cpmm_event;
use crate::decode::raydium_cpmm::cpmm_input_is_token_a;
use crate::decode::raydium_launchpad::launchpad_decoded;
use crate::decode::raydium_launchpad::launchpad_total_fee;
use crate::decode::raydium_launchpad::launchpad_trade_event;
use crate::math::lemma_scaled_ratio_bounds;
use crate::math::lemma_scaled_ratio_of_part;
use crate::math::price_of;
use crate::math::scaled_ratio;
use crate::protocol_idls::pumpfun::PfTradeEventIdlCurrent;
use crate::protocol_idls::pumpswap::PumpswapBuyEventIdlOld;
use crate::tables::FeeConfigEntry;
use crate::tables::fee_of;
use crate::types::DecodeError;
use crate::types::Instruction;
use crate::types::Pools;
use crate::types::Provenance;
use crate::types::SwapDirection;
use crate::types::SwapTx;
use crate::types::SwapTxView;
use crate::types::swap_result_view;

verus! {

/// Whether the prices of an event are those of its two vault balances.
pub open spec fn priced_at_vaults(swap: SwapTxView) -> bool {
    quoted_balances(swap.pool_token_a_vault_amount, swap.pool_token_b_vault_amount) == Ok::<
        PoolQuote,
        DecodeError,
    >(
        PoolQuote {
            vault_a_amount: swap.pool_token_a_vault_amount,
            vault_b_amount: swap.pool_token_b_vault_amount,
            price_a_b: swap.price_a_b_lp,
            price_b_a: swap.price_b_a_lp,
        },
    )
}

/// Whether `price` is `balance` per unit of `other` within the rounding of
/// one unit of the price.
pub open spec fn is_scaled_price(price: u128, balance: u64, other: u64) -> bool {
    price * other <= balance * constants::SCALE < (price + 1) * other
}

/// Decoding is a function of what is decoded: two results that meet the
/// contract of one decoder on the same instruction, companions and balances
/// are the same event, field for field, or the same error.
pub proof fn lemma_decoding_is_deterministic(
    first: Result<SwapTx, DecodeError>,
    second: Result<SwapTx, DecodeError>,
    decoded: Result<SwapTxView, DecodeError>,
)
    requires
        swap_result_view(first) == decoded,
        swap_result_view(second) == decoded,
    ensures
        first is Ok <==> second is Ok,
        first is Ok ==> first->Ok_0@ == second->Ok_0@,
        first is Err ==> first->Err_0 == second->Err_0,
{
}

/// The price between two vaults that are not empty fits its type, and,
/// multiplied by the balance that it is a price in units of, misses the
/// scaled other balance by less than one unit of the price.
pub proof fn lemma_price_is_reciprocal(balance: u64, other: u64)
    requires
        other > 0,
    ensures
        price_of(balance, other) is Ok,
        is_scaled_price(price_of(balance, other)->Ok_0, balance, other),
{
    lemma_scaled_ratio_bounds(balance as int, other as int);
    let q = scaled_ratio(balance as int, other as int);
    let n = balance * (constants::SCALE as int);
    assert(q <= n) by (nonlinear_arith)
        requires
            q * other <= n,
            0 <= q,
            1 <= other,
    ;
}

/// Both prices of an event that is priced at its vaults are reciprocal to
/// the vault balances within the rounding of one unit.
pub proof fn lemma_swap_prices_are_reciprocal(swap: SwapTxView)
    requires
        priced_at_vaults(swap),
    ensures
        is_scaled_price(
            swap.price_a_b_lp,
            swap.pool_token_a_vault_amount,
            swap.pool_token_b_vault_amount,
        ),
        is_scaled_price(
            swap.price_b_a_lp,
            swap.pool_token_b_vault_amount,
            swap.pool_token_a_vault_amount,
        ),
{
    lemma_price_is_reciprocal(swap.pool_token_a_vault_amount, swap.pool_token_b_vault_amount);
    lemma_price_is_reciprocal(swap.pool_token_b_vault_amount, swap.pool_token_a_vault_amount);
}

/// Every swap that the AMM v4 decoder yields is priced at its vaults, and
/// its fee fraction is the fixed 0.25%.
pub proof fn lemma_ammv4_event(
    instruction: Instruction,
    transfers: Seq<Instruction>,
    ta_mint: Map<u8, Address>,
    table: Map<u8, u64>,
    provenance: Provenance,
)
    ensures
        ammv4_decoded(instruction, transfers, ta_mint, table, provenance).1 matches Ok(swap)
            ==> priced_at_vaults(swap) && swap.fee_fraction_lp == constants::AMMV4_FEE_FRACTION
            && swap.fee_fraction_lp <= constants::SCALE,
{
}

/// Every swap that the CPMM decoder yields is priced at its vaults, and its
/// fee fraction is at most 1 where every entry of the fee configuration is.
pub proof fn lemma_cpmm_event(
    instruction: Instruction,
    transfers: Seq<Instruction>,
    table: Map<u8, u64>,
    fee_config: Seq<FeeConfigEntry>,
    provenance: Provenance,
)
    ensures
        cpmm_decoded(instruction, transfers, table, fee_config, provenance).1 matches Ok(swap)
            ==> priced_at_vaults(swap) && ((forall|i: int|
            0 <= i < fee_config.len() ==> (#[trigger] fee_config[i]).fee_fraction
                <= constants::SCALE) ==> swap.fee_fraction_lp <= constants::SCALE),
{
    if cpmm_decoded(instruction, transfers, table, fee_config, provenance).1 is Ok {
        let swap = cpmm_decoded(instruction, transfers, table, fee_config, provenance).1->Ok_0;
        if forall|i: int|
            0 <= i < fee_config.len() ==> (#[trigger] fee_config[i]).fee_fraction
                <= constants::SCALE {
            let account = crate::decode::raydium_cpmm::cpmm_accounts(instruction)->Ok_0.fee_config;
            lemma_fee_of_is_an_entry(fee_config, account);
        }
    }
}

/// A fee fraction that the configuration gives is that of one of its
/// entries.
pub proof fn lemma_fee_of_is_an_entry(fee_config: Seq<FeeConfigEntry>, account: Address)
    ensures
        fee_of(fee_config, account) matches Some(fee) ==> exists|i: int|
            0 <= i < fee_config.len() && (#[trigger] fee_config[i]).fee_fraction == fee,
    decreases fee_config.len(),
{
    if fee_config.len() > 0 {
        if fee_config[0].account@ == account@ {
            assert(fee_config[0].fee_fraction == fee_of(fee_config, account)->Some_0);
        } else {
            lemma_fee_of_is_an_entry(fee_config.drop_first(), account);
            if fee_of(fee_config, account) is Some {
                let i = choose|i: int|
                    0 <= i < fee_config.drop_first().len() && (
                    #[trigger] fee_config.drop_first()[i]).fee_fraction == fee_of(
                        fee_config,
                        account,
                    )->Some_0;
                assert(fee_config[i + 1].fee_fraction == fee_of(fee_config, account)->Some_0);
            }
        }
    }
}

/// Every swap that the Launchpad decoder yields is priced at its vaults.
/// Its fee fraction is at most 1 on a sale of token A, and on a purchase
/// where the fees of the trade are no more than what was sent in.
pub proof fn lemma_launchpad_event(
    instruction: Instruction,
    event: Instruction,
    direction: SwapDirection,
    provenance: Provenance,
)
    ensures
        launchpad_decoded(instruction, event, direction, provenance) matches Ok(swap) ==> {
            &&& priced_at_vaults(swap)
            &&& direction == SwapDirection::AToB ==> swap.fee_fraction_lp <= constants::SCALE
            &&& launchpad_total_fee(launchpad_trade_event(event)->Ok_0) <= swap.swapped_amount_in
                ==> swap.fee_fraction_lp <= constants::SCALE
        },
{
    if launchpad_decoded(instruction, event, direction, provenance) is Ok {
        let trade = launchpad_trade_event(event)->Ok_0;
        let fee = launchpad_total_fee(trade);
        if direction == SwapDirection::AToB {
            lemma_scaled_ratio_of_part(fee, trade.amount_out + fee);
        } else if fee <= trade.amount_in {
            lemma_scaled_ratio_of_part(fee, trade.amount_in as int);
        }
    }
}

/// A guarded fee fraction of a part of what it is charged on is at most 1.
pub proof fn lemma_pumpswap_fee_fraction(fee: int, charged_on: int)
    requires
        0 <= fee <= charged_on,
    ensures
        pumpswap_fee_fraction(fee, charged_on) is Ok,
        pumpswap_fee_fraction(fee, charged_on)->Ok_0 <= constants::SCALE,
{
    if charged_on > 0 {
        lemma_scaled_ratio_of_part(fee, charged_on);
    }
}

/// Every swap that the Pumpswap decoder yields is priced at its vaults. Its
/// fee fraction is at most 1 on a sale of token A.
pub proof fn lemma_pumpswap_event(
    instruction: Instruction,
    swap_event_instruction: Instruction,
    direction: SwapDirection,
    provenance: Provenance,
)
    ensures
        pumpswap_decoded(instruction, swap_event_instruction, direction, provenance) matches Ok(
            swap,
        ) ==> {
            &&& priced_at_vaults(swap)
            &&& direction == SwapDirection::AToB ==> swap.fee_fraction_lp <= constants::SCALE
        },
{
    if pumpswap_decoded(instruction, swap_event_instruction, direction, provenance) is Ok
        && direction == SwapDirection::AToB {
        let trade = crate::protocol_idls::pumpswap::PumpswapSellEventIdl::of(
            swap_event_instruction.data@,
        );
        let fee = trade.lp_fee + trade.protocol_fee + trade.coin_creator_fee;
        lemma_pumpswap_fee_fraction(fee, trade.user_quote_amount_out + fee);
    }
}

/// Whether a buy event of `length` bytes is that of a buy with an exact
/// quote amount.
pub open spec fn pumpswap_exact_quote_in(length: nat) -> bool {
    length == constants::PUMPSWAP_BUY_EVENT_LEN_EXACT_QUOTE_IN
}

/// Buy events of the three lengths that agree in their first 401 bytes
/// yield the same amount received and the same balances. Where one of
/// them yields a trade, another that is an event of a buy with an exact
/// quote amount if and only if the first is one yields the same trade. The amount sent in is the quote amount of a buy with an
/// exact quote amount and the user's quote amount of any other.
pub proof fn lemma_pumpswap_buy_layouts_agree(first: Seq<u8>, second: Seq<u8>)
    requires
        pumpswap_buy_length(first.len()),
        pumpswap_buy_length(second.len()),
        first.subrange(0, constants::PUMPSWAP_BUY_EVENT_LEN_OLD as int) == second.subrange(
            0,
            constants::PUMPSWAP_BUY_EVENT_LEN_OLD as int,
        ),
    ensures
        pumpswap_exact_quote_in(first.len()) == pumpswap_exact_quote_in(second.len())
            && pumpswap_trade(first, SwapDirection::BToA) is Ok ==> pumpswap_trade(
            first,
            SwapDirection::BToA,
        ) == pumpswap_trade(second, SwapDirection::BToA),
        pumpswap_trade(first, SwapDirection::BToA) is Ok && pumpswap_trade(
            second,
            SwapDirection::BToA,
        ) is Ok ==> {
            let one = pumpswap_trade(first, SwapDirection::BToA)->Ok_0;
            let other = pumpswap_trade(second, SwapDirection::BToA)->Ok_0;
            &&& one.amount_received == other.amount_received
            &&& one.vault_a_amount == other.vault_a_amount
            &&& one.vault_b_amount == other.vault_b_amount
        },
        pumpswap_trade(first, SwapDirection::BToA) matches Ok(trade) ==> {
            let event = PumpswapBuyEventIdlOld::of(
                first.subrange(0, constants::PUMPSWAP_BUY_EVENT_LEN_OLD as int),
            );
            trade.amount_in == if pumpswap_exact_quote_in(first.len()) {
                event.quote_amount_in
            } else {
                event.user_quote_amount_in
            }
        },
{
}

/// A trade event of 137 bytes has the fee fraction 1%. One of the current
/// family has the sum of the two basis-point fields of the event on the
/// scale of fee fractions, which is at most 1 where the sum is at most
/// 10000 basis points. A payload of any other length is not recognized.
pub proof fn lemma_pumpfun_fee_fraction(data: Seq<u8>)
    ensures
        data.len() == constants::PF_EVENT_LEN_OLD ==> (pf_trade(data) matches Ok(trade)
            ==> trade.fee_fraction == constants::PF_OLD_FEE_FRACTION && trade.fee_fraction
            <= constants::SCALE),
        pf_current_length(data.len()) ==> (pf_trade(data) matches Ok(trade) ==> {
            let event = PfTradeEventIdlCurrent::of(
                data.subrange(0, constants::PF_EVENT_LEN_CURRENT as int),
            );
            &&& trade.fee_fraction == (event.fee_basis_points + event.creator_fee_basis_points)
                * constants::FEE_FRACTION_PER_BASIS_POINT
            &&& event.fee_basis_points + event.creator_fee_basis_points <= 10000
                ==> trade.fee_fraction <= constants::SCALE
        }),
        !pf_current_length(data.len()) && data.len() != constants::PF_EVENT_LEN_OLD ==> pf_trade(
            data,
        ) == Err::<PfTrade, DecodeError>(
            DecodeError::UnrecognizedEventLayout {
                protocol: Pools::PfBondingCurve,
                observed_length: data.len() as usize,
            },
        ),
{
}

/// Every trade that the bonding-curve decoder yields carries the fee
/// fraction of its event, and its prices are those of the curve's virtual
/// reserves, reciprocal to them within the rounding of one unit.
pub proof fn lemma_pumpfun_event(trade: PfTrade, market: Option<Address>, provenance: Provenance)
    ensures
        pf_event(trade, market, provenance) matches Ok(swap) ==> {
            &&& swap.fee_fraction_lp == trade.fee_fraction
            &&& is_scaled_price(
                swap.price_a_b_lp,
                trade.virtual_token_reserves,
                trade.virtual_sol_reserves,
            )
            &&& is_scaled_price(
                swap.price_b_a_lp,
                trade.virtual_sol_reserves,
                trade.virtual_token_reserves,
            )
        },
{
    if pf_event(trade, market, provenance) is Ok {
        lemma_price_is_reciprocal(trade.virtual_token_reserves, trade.virtual_sol_reserves);
        lemma_price_is_reciprocal(trade.virtual_sol_reserves, trade.virtual_token_reserves);
    }
}

/// A swap with 17 accounts and one with 18 that name the same market and
/// the same vaults, each at the positions of its own shape, decode alike.
pub proof fn lemma_ammv4_account_shapes_agree(
    short: Instruction,
    long: Instruction,
    transfers: Seq<Instruction>,
    ta_mint: Map<u8, Address>,
    table: Map<u8, u64>,
    provenance: Provenance,
)
    requires
        short.accounts@.len() == 17,
        long.accounts@.len() == 18,
        short.accounts@[4] == long.accounts@[5],
        short.accounts@[5] == long.accounts@[6],
        short.accounts@[1] == long.accounts@[1],
        short.tx_account_keys@ == long.tx_account_keys@,
    ensures
        ammv4_decoded(short, transfers, ta_mint, table, provenance) == ammv4_decoded(
            long,
            transfers,
            ta_mint,
            table,
            provenance,
        ),
{
}

/// Of two different byte strings exactly one comes before the other.
pub proof fn lemma_lex_less_is_total(a: Seq<u8>, b: Seq<u8>, from: int)
    requires
        0 <= from,
        from <= a.len(),
        from <= b.len(),
        forall|i: int| 0 <= i < from ==> a[i] == b[i],
        a != b,
    ensures
        lex_less_from(a, b, from) != lex_less_from(b, a, from),
    decreases a.len() - from,
{
    if from < a.len() && from < b.len() && a[from] == b[from] {
        lemma_lex_less_is_total(a, b, from + 1);
    } else if from >= a.len() && from >= b.len() {
        assert(a =~= b);
    }
}

/// The slots of a CPMM pair do not depend on the side that was sent in:
/// two swaps of one pool in opposite directions, whose mints have different
/// texts, name the same mint as token A and the same as token B, and one of
/// them goes from A to B and the other from B to A.
pub proof fn lemma_cpmm_slots_are_order_independent(
    one: CpmmAccounts,
    other: CpmmAccounts,
    one_text: Seq<u8>,
    other_text: Seq<u8>,
    amounts: (u64, u64),
    fee_fraction: u64,
    quote: PoolQuote,
    provenance: Provenance,
)
    requires
        one.input_mint == other.output_mint,
        one.output_mint == other.input_mint,
        one_text != other_text,
    ensures
        ({
            let first = cpmm_event(
                one,
                amounts,
                cpmm_input_is_token_a(one_text, other_text),
                fee_fraction,
                quote,
                provenance,
            );
            let second = cpmm_event(
                other,
                amounts,
                cpmm_input_is_token_a(other_text, one_text),
                fee_fraction,
                quote,
                provenance,
            );
            &&& first.token_a_address == second.token_a_address
            &&& first.token_b_address == second.token_b_address
            &&& first.direction != second.direction
        }),
{
    lemma_lex_less_is_total(one_text, other_text, 0);
}

} // verus!
