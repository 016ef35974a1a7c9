//! The trade events of the Pumpfun bonding curve.

use vstd::prelude::*;
use crate::address::Address;
use crate::address::address_of;
use crate::address::bytes_array;
use crate::bytes::bool_value;
use crate::bytes::le_i64_value;
use crate::bytes::le_value;
use crate::bytes::read_address;
use crate::bytes::read_array;
use crate::bytes::read_bool;
use crate::bytes::read_i64_le;
use crate::bytes::read_u64_le;

verus! {

/// The trade event since creator fees were introduced, 266 bytes.
#[derive(Clone, Copy, Debug)]
pub struct PfTradeEventIdlCurrent {
    /// The discriminator of the event.
    pub padding: [u8; 16],
    pub mint: Address,
    /// The SOL that reached the curve, fees excluded.
    pub sol_amount: u64,
    pub token_amount: u64,
    pub is_buy: bool,
    pub user: Address,
    pub timestamp: i64,
    /// The reserves after the trade.
    pub virtual_sol_reserves: u64,
    pub virtual_token_reserves: u64,
    pub real_sol_reserves: u64,
    pub real_token_reserves: u64,
    pub fee_recipient: Address,
    pub fee_basis_points: u64,
    pub fee: u64,
    pub creator: Address,
    pub creator_fee_basis_points: u64,
    pub creator_fee: u64,
    pub track_volume: bool,
    pub track_unclaimed_tokens: u64,
    pub total_claimed_tokens: u64,
    pub current_sol_volume: u64,
    pub last_update_timestamp: u64,
}

impl PfTradeEventIdlCurrent {
    /// The number of bytes of the layout.
    pub const LEN: usize = 266;

    /// Whether `data` is an encoding of the layout: it has the layout's
    /// length, and each flag is 0 or 1.
    pub open spec fn recognizes(data: Seq<u8>) -> bool {
        &&& data.len() == 266
        &&& bool_value(data, 64) is Some
        &&& bool_value(data, 233) is Some
    }

    /// The value that `data` encodes, field after field, integers least
    /// significant byte first.
    pub open spec fn of(data: Seq<u8>) -> PfTradeEventIdlCurrent {
        PfTradeEventIdlCurrent {
            padding: bytes_array::<16>(data.subrange(0, 16)),
            mint: address_of(data.subrange(16, 48)),
            sol_amount: le_value(data, 48, 8) as u64,
            token_amount: le_value(data, 56, 8) as u64,
            is_buy: bool_value(data, 64) == Some(true),
            user: address_of(data.subrange(65, 97)),
            timestamp: le_i64_value(data, 97) as i64,
            virtual_sol_reserves: le_value(data, 105, 8) as u64,
            virtual_token_reserves: le_value(data, 113, 8) as u64,
            real_sol_reserves: le_value(data, 121, 8) as u64,
            real_token_reserves: le_value(data, 129, 8) as u64,
            fee_recipient: address_of(data.subrange(137, 169)),
            fee_basis_points: le_value(data, 169, 8) as u64,
            fee: le_value(data, 177, 8) as u64,
            creator: address_of(data.subrange(185, 217)),
            creator_fee_basis_points: le_value(data, 217, 8) as u64,
            creator_fee: le_value(data, 225, 8) as u64,
            track_volume: bool_value(data, 233) == Some(true),
            track_unclaimed_tokens: le_value(data, 234, 8) as u64,
            total_claimed_tokens: le_value(data, 242, 8) as u64,
            current_sol_volume: le_value(data, 250, 8) as u64,
            last_update_timestamp: le_value(data, 258, 8) as u64,
        }
    }

    /// Decodes the layout from `data`, which must hold it exactly.
    pub fn try_from_slice(data: &[u8]) -> (r: Option<PfTradeEventIdlCurrent>)
        ensures
            r == if PfTradeEventIdlCurrent::recognizes(data@) {
                Some(PfTradeEventIdlCurrent::of(data@))
            } else {
                None::<PfTradeEventIdlCurrent>
            },
    {
        if data.len() != 266 {
            return None;
        }
        let is_buy: bool = match read_bool(data, 64) {
            Some(flag) => flag,
            None => {
                return None;
            },
        };
        let track_volume: bool = match read_bool(data, 233) {
            Some(flag) => flag,
            None => {
                return None;
            },
        };
        Some(
            PfTradeEventIdlCurrent {
                padding: read_array::<16>(data, 0),
                mint: read_address(data, 16),
                sol_amount: read_u64_le(data, 48),
                token_amount: read_u64_le(data, 56),
                is_buy,
                user: read_address(data, 65),
                timestamp: read_i64_le(data, 97),
                virtual_sol_reserves: read_u64_le(data, 105),
                virtual_token_reserves: read_u64_le(data, 113),
                real_sol_reserves: read_u64_le(data, 121),
                real_token_reserves: read_u64_le(data, 129),
                fee_recipient: read_address(data, 137),
                fee_basis_points: read_u64_le(data, 169),
                fee: read_u64_le(data, 177),
                creator: read_address(data, 185),
                creator_fee_basis_points: read_u64_le(data, 217),
                creator_fee: read_u64_le(data, 225),
                track_volume,
                track_unclaimed_tokens: read_u64_le(data, 234),
                total_claimed_tokens: read_u64_le(data, 242),
                current_sol_volume: read_u64_le(data, 250),
                last_update_timestamp: read_u64_le(data, 258),
            },
        )
    }
}

/// The fields of the trade event from before creator fees, 121 bytes.
#[derive(Clone, Copy, Debug)]
pub struct PfTradeEventIdlOld {
    pub discriminator: [u8; 16],
    pub mint: Address,
    pub sol_amount: u64,
    pub token_amount: u64,
    pub is_buy: bool,
    pub user: Address,
    pub timestamp: i64,
    pub virtual_sol_reserves: u64,
    pub virtual_token_reserves: u64,
}

impl PfTradeEventIdlOld {
    /// The number of bytes of the layout.
    pub const LEN: usize = 121;

    /// Whether `data` is an encoding of the layout: it has the layout's
    /// length, and each flag is 0 or 1.
    pub open spec fn recognizes(data: Seq<u8>) -> bool {
        &&& data.len() == 121
        &&& bool_value(data, 64) is Some
    }

    /// The value that `data` encodes, field after field, integers least
    /// significant byte first.
    pub open spec fn of(data: Seq<u8>) -> PfTradeEventIdlOld {
        PfTradeEventIdlOld {
            discriminator: bytes_array::<16>(data.subrange(0, 16)),
            mint: address_of(data.subrange(16, 48)),
            sol_amount: le_value(data, 48, 8) as u64,
            token_amount: le_value(data, 56, 8) as u64,
            is_buy: bool_value(data, 64) == Some(true),
            user: address_of(data.subrange(65, 97)),
            timestamp: le_i64_value(data, 97) as i64,
            virtual_sol_reserves: le_value(data, 105, 8) as u64,
            virtual_token_reserves: le_value(data, 113, 8) as u64,
        }
    }

    /// Decodes the layout from `data`, which must hold it exactly.
    pub fn try_from_slice(data: &[u8]) -> (r: Option<PfTradeEventIdlOld>)
        ensures
            r == if PfTradeEventIdlOld::recognizes(data@) {
                Some(PfTradeEventIdlOld::of(data@))
            } else {
                None::<PfTradeEventIdlOld>
            },
    {
        if data.len() != 121 {
            return None;
        }
        let is_buy: bool = match read_bool(data, 64) {
            Some(flag) => flag,
            None => {
                return None;
            },
        };
        Some(
            PfTradeEventIdlOld {
                discriminator: read_array::<16>(data, 0),
                mint: read_address(data, 16),
                sol_amount: read_u64_le(data, 48),
                token_amount: read_u64_le(data, 56),
                is_buy,
                user: read_address(data, 65),
                timestamp: read_i64_le(data, 97),
                virtual_sol_reserves: read_u64_le(data, 105),
                virtual_token_reserves: read_u64_le(data, 113),
            },
        )
    }
}

} // verus!
