//! The events and instruction data of the Pumpswap AMM.

use vstd::prelude::*;
use crate::address::Address;
use crate::address::address_of;
use crate::address::bytes_array;
use crate::bytes::bool_value;
use crate::bytes::le_i64_value;
use crate::bytes::le_value;
use crate::bytes::read_address;
use crate::bytes::read_array;
use crate::bytes::read_bool;
use crate::bytes::read_i64_le;
use crate::bytes::read_u16_le;
use crate::bytes::read_u64_le;

verus! {

/// The data of the instruction that creates a pool, 58 bytes.
#[derive(Clone, Copy, Debug)]
pub struct PumpAmmCreatePoolInstructionDataIdl {
    pub discriminator: [u8; 8],
    pub index: u16,
    pub base_amount_in: u64,
    pub quote_amount_in: u64,
    pub coin_creator: Address,
}

impl PumpAmmCreatePoolInstructionDataIdl {
    /// The number of bytes of the layout.
    pub const LEN: usize = 58;

    /// Whether `data` is an encoding of the layout: it has the layout's
    /// length.
    pub open spec fn recognizes(data: Seq<u8>) -> bool {
        &&& data.len() == 58
    }

    /// The value that `data` encodes, field after field, integers least
    /// significant byte first.
    pub open spec fn of(data: Seq<u8>) -> PumpAmmCreatePoolInstructionDataIdl {
        PumpAmmCreatePoolInstructionDataIdl {
            discriminator: bytes_array::<8>(data.subrange(0, 8)),
            index: le_value(data, 8, 2) as u16,
            base_amount_in: le_value(data, 10, 8) as u64,
            quote_amount_in: le_value(data, 18, 8) as u64,
            coin_creator: address_of(data.subrange(26, 58)),
        }
    }

    /// Decodes the layout from `data`, which must hold it exactly.
    pub fn try_from_slice(data: &[u8]) -> (r: Option<PumpAmmCreatePoolInstructionDataIdl>)
        ensures
            r == if PumpAmmCreatePoolInstructionDataIdl::recognizes(data@) {
                Some(PumpAmmCreatePoolInstructionDataIdl::of(data@))
            } else {
                None::<PumpAmmCreatePoolInstructionDataIdl>
            },
    {
        if data.len() != 58 {
            return None;
        }
        Some(
            PumpAmmCreatePoolInstructionDataIdl {
                discriminator: read_array::<8>(data, 0),
                index: read_u16_le(data, 8),
                base_amount_in: read_u64_le(data, 10),
                quote_amount_in: read_u64_le(data, 18),
                coin_creator: read_address(data, 26),
            },
        )
    }
}

/// The buy event from before the minimum amount and the instruction
/// name were added, 401 bytes.
#[derive(Clone, Copy, Debug)]
pub struct PumpswapBuyEventIdlOld {
    pub discriminator: [u8; 16],
    pub timestamp: i64,
    pub base_amount_out: u64,
    pub max_quote_amount_in: u64,
    pub user_base_token_reserves: u64,
    pub user_quote_token_reserves: u64,
    /// The pool's reserves before the trade.
    pub pool_base_token_reserves: u64,
    pub pool_quote_token_reserves: u64,
    pub quote_amount_in: u64,
    pub lp_fee_basis_points: u64,
    pub lp_fee: u64,
    pub protocol_fee_basis_points: u64,
    pub protocol_fee: u64,
    pub quote_amount_in_with_lp_fee: u64,
    pub user_quote_amount_in: u64,
    pub pool: Address,
    pub user: Address,
    pub user_base_token_account: Address,
    pub user_quote_token_account: Address,
    pub protocol_fee_recipient: Address,
    pub protocol_fee_recipient_token_account: Address,
    pub coin_creator: Address,
    pub coin_creator_fee_basis_points: u64,
    pub coin_creator_fee: u64,
    pub track_volume: bool,
    pub total_unclaimed_tokens: u64,
    pub total_claimed_tokens: u64,
    pub current_sol_volume: u64,
    pub last_update_timestamp: u64,
}

impl PumpswapBuyEventIdlOld {
    /// The number of bytes of the layout.
    pub const LEN: usize = 401;

    /// Whether `data` is an encoding of the layout: it has the layout's
    /// length, and each flag is 0 or 1.
    pub open spec fn recognizes(data: Seq<u8>) -> bool {
        &&& data.len() == 401
        &&& bool_value(data, 368) is Some
    }

    /// The value that `data` encodes, field after field, integers least
    /// significant byte first.
    pub open spec fn of(data: Seq<u8>) -> PumpswapBuyEventIdlOld {
        PumpswapBuyEventIdlOld {
            discriminator: bytes_array::<16>(data.subrange(0, 16)),
            timestamp: le_i64_value(data, 16) as i64,
            base_amount_out: le_value(data, 24, 8) as u64,
            max_quote_amount_in: le_value(data, 32, 8) as u64,
            user_base_token_reserves: le_value(data, 40, 8) as u64,
            user_quote_token_reserves: le_value(data, 48, 8) as u64,
            pool_base_token_reserves: le_value(data, 56, 8) as u64,
            pool_quote_token_reserves: le_value(data, 64, 8) as u64,
            quote_amount_in: le_value(data, 72, 8) as u64,
            lp_fee_basis_points: le_value(data, 80, 8) as u64,
            lp_fee: le_value(data, 88, 8) as u64,
            protocol_fee_basis_points: le_value(data, 96, 8) as u64,
            protocol_fee: le_value(data, 104, 8) as u64,
            quote_amount_in_with_lp_fee: le_value(data, 112, 8) as u64,
            user_quote_amount_in: le_value(data, 120, 8) as u64,
            pool: address_of(data.subrange(128, 160)),
            user: address_of(data.subrange(160, 192)),
            user_base_token_account: address_of(data.subrange(192, 224)),
            user_quote_token_account: address_of(data.subrange(224, 256)),
            protocol_fee_recipient: address_of(data.subrange(256, 288)),
            protocol_fee_recipient_token_account: address_of(data.subrange(288, 320)),
            coin_creator: address_of(data.subrange(320, 352)),
            coin_creator_fee_basis_points: le_value(data, 352, 8) as u64,
            coin_creator_fee: le_value(data, 360, 8) as u64,
            track_volume: bool_value(data, 368) == Some(true),
            total_unclaimed_tokens: le_value(data, 369, 8) as u64,
            total_claimed_tokens: le_value(data, 377, 8) as u64,
            current_sol_volume: le_value(data, 385, 8) as u64,
            last_update_timestamp: le_value(data, 393, 8) as u64,
        }
    }

    /// Decodes the layout from `data`, which must hold it exactly.
    pub fn try_from_slice(data: &[u8]) -> (r: Option<PumpswapBuyEventIdlOld>)
        ensures
            r == if PumpswapBuyEventIdlOld::recognizes(data@) {
                Some(PumpswapBuyEventIdlOld::of(data@))
            } else {
                None::<PumpswapBuyEventIdlOld>
            },
    {
        if data.len() != 401 {
            return None;
        }
        let track_volume: bool = match read_bool(data, 368) {
            Some(flag) => flag,
            None => {
                return None;
            },
        };
        Some(
            PumpswapBuyEventIdlOld {
                discriminator: read_array::<16>(data, 0),
                timestamp: read_i64_le(data, 16),
                base_amount_out: read_u64_le(data, 24),
                max_quote_amount_in: read_u64_le(data, 32),
                user_base_token_reserves: read_u64_le(data, 40),
                user_quote_token_reserves: read_u64_le(data, 48),
                pool_base_token_reserves: read_u64_le(data, 56),
                pool_quote_token_reserves: read_u64_le(data, 64),
                quote_amount_in: read_u64_le(data, 72),
                lp_fee_basis_points: read_u64_le(data, 80),
                lp_fee: read_u64_le(data, 88),
                protocol_fee_basis_points: read_u64_le(data, 96),
                protocol_fee: read_u64_le(data, 104),
                quote_amount_in_with_lp_fee: read_u64_le(data, 112),
                user_quote_amount_in: read_u64_le(data, 120),
                pool: read_address(data, 128),
                user: read_address(data, 160),
                user_base_token_account: read_address(data, 192),
                user_quote_token_account: read_address(data, 224),
                protocol_fee_recipient: read_address(data, 256),
                protocol_fee_recipient_token_account: read_address(data, 288),
                coin_creator: read_address(data, 320),
                coin_creator_fee_basis_points: read_u64_le(data, 352),
                coin_creator_fee: read_u64_le(data, 360),
                track_volume,
                total_unclaimed_tokens: read_u64_le(data, 369),
                total_claimed_tokens: read_u64_le(data, 377),
                current_sol_volume: read_u64_le(data, 385),
                last_update_timestamp: read_u64_le(data, 393),
            },
        )
    }
}

/// The buy event with the two later fields as opaque trailing bytes,
/// 416 bytes.
#[derive(Clone, Copy, Debug)]
pub struct PumpswapBuyEventIdlCurrent {
    pub discriminator: [u8; 16],
    pub timestamp: i64,
    pub base_amount_out: u64,
    pub max_quote_amount_in: u64,
    pub user_base_token_reserves: u64,
    pub user_quote_token_reserves: u64,
    /// The pool's reserves before the trade.
    pub pool_base_token_reserves: u64,
    pub pool_quote_token_reserves: u64,
    pub quote_amount_in: u64,
    pub lp_fee_basis_points: u64,
    pub lp_fee: u64,
    pub protocol_fee_basis_points: u64,
    pub protocol_fee: u64,
    pub quote_amount_in_with_lp_fee: u64,
    pub user_quote_amount_in: u64,
    pub pool: Address,
    pub user: Address,
    pub user_base_token_account: Address,
    pub user_quote_token_account: Address,
    pub protocol_fee_recipient: Address,
    pub protocol_fee_recipient_token_account: Address,
    pub coin_creator: Address,
    pub coin_creator_fee_basis_points: u64,
    pub coin_creator_fee: u64,
    pub track_volume: bool,
    pub total_unclaimed_tokens: u64,
    pub total_claimed_tokens: u64,
    pub current_sol_volume: u64,
    pub last_update_timestamp: u64,
    /// The two later fields, undecoded.
    pub padding: [u8; 15],
}

impl PumpswapBuyEventIdlCurrent {
    /// The number of bytes of the layout.
    pub const LEN: usize = 416;

    /// Whether `data` is an encoding of the layout: it has the layout's
    /// length, and each flag is 0 or 1.
    pub open spec fn recognizes(data: Seq<u8>) -> bool {
        &&& data.len() == 416
        &&& bool_value(data, 368) is Some
    }

    /// The value that `data` encodes, field after field, integers least
    /// significant byte first.
    pub open spec fn of(data: Seq<u8>) -> PumpswapBuyEventIdlCurrent {
        PumpswapBuyEventIdlCurrent {
            discriminator: bytes_array::<16>(data.subrange(0, 16)),
            timestamp: le_i64_value(data, 16) as i64,
            base_amount_out: le_value(data, 24, 8) as u64,
            max_quote_amount_in: le_value(data, 32, 8) as u64,
            user_base_token_reserves: le_value(data, 40, 8) as u64,
            user_quote_token_reserves: le_value(data, 48, 8) as u64,
            pool_base_token_reserves: le_value(data, 56, 8) as u64,
            pool_quote_token_reserves: le_value(data, 64, 8) as u64,
            quote_amount_in: le_value(data, 72, 8) as u64,
            lp_fee_basis_points: le_value(data, 80, 8) as u64,
            lp_fee: le_value(data, 88, 8) as u64,
            protocol_fee_basis_points: le_value(data, 96, 8) as u64,
            protocol_fee: le_value(data, 104, 8) as u64,
            quote_amount_in_with_lp_fee: le_value(data, 112, 8) as u64,
            user_quote_amount_in: le_value(data, 120, 8) as u64,
            pool: address_of(data.subrange(128, 160)),
            user: address_of(data.subrange(160, 192)),
            user_base_token_account: address_of(data.subrange(192, 224)),
            user_quote_token_account: address_of(data.subrange(224, 256)),
            protocol_fee_recipient: address_of(data.subrange(256, 288)),
            protocol_fee_recipient_token_account: address_of(data.subrange(288, 320)),
            coin_creator: address_of(data.subrange(320, 352)),
            coin_creator_fee_basis_points: le_value(data, 352, 8) as u64,
            coin_creator_fee: le_value(data, 360, 8) as u64,
            track_volume: bool_value(data, 368) == Some(true),
            total_unclaimed_tokens: le_value(data, 369, 8) as u64,
            total_claimed_tokens: le_value(data, 377, 8) as u64,
            current_sol_volume: le_value(data, 385, 8) as u64,
            last_update_timestamp: le_value(data, 393, 8) as u64,
            padding: bytes_array::<15>(data.subrange(401, 416)),
        }
    }

    /// Decodes the layout from `data`, which must hold it exactly.
    pub fn try_from_slice(data: &[u8]) -> (r: Option<PumpswapBuyEventIdlCurrent>)
        ensures
            r == if PumpswapBuyEventIdlCurrent::recognizes(data@) {
                Some(PumpswapBuyEventIdlCurrent::of(data@))
            } else {
                None::<PumpswapBuyEventIdlCurrent>
            },
    {
        if data.len() != 416 {
            return None;
        }
        let track_volume: bool = match read_bool(data, 368) {
            Some(flag) => flag,
            None => {
                return None;
            },
        };
        Some(
            PumpswapBuyEventIdlCurrent {
                discriminator: read_array::<16>(data, 0),
                timestamp: read_i64_le(data, 16),
                base_amount_out: read_u64_le(data, 24),
                max_quote_amount_in: read_u64_le(data, 32),
                user_base_token_reserves: read_u64_le(data, 40),
                user_quote_token_reserves: read_u64_le(data, 48),
                pool_base_token_reserves: read_u64_le(data, 56),
                pool_quote_token_reserves: read_u64_le(data, 64),
                quote_amount_in: read_u64_le(data, 72),
                lp_fee_basis_points: read_u64_le(data, 80),
                lp_fee: read_u64_le(data, 88),
                protocol_fee_basis_points: read_u64_le(data, 96),
                protocol_fee: read_u64_le(data, 104),
                quote_amount_in_with_lp_fee: read_u64_le(data, 112),
                user_quote_amount_in: read_u64_le(data, 120),
                pool: read_address(data, 128),
                user: read_address(data, 160),
                user_base_token_account: read_address(data, 192),
                user_quote_token_account: read_address(data, 224),
                protocol_fee_recipient: read_address(data, 256),
                protocol_fee_recipient_token_account: read_address(data, 288),
                coin_creator: read_address(data, 320),
                coin_creator_fee_basis_points: read_u64_le(data, 352),
                coin_creator_fee: read_u64_le(data, 360),
                track_volume,
                total_unclaimed_tokens: read_u64_le(data, 369),
                total_claimed_tokens: read_u64_le(data, 377),
                current_sol_volume: read_u64_le(data, 385),
                last_update_timestamp: read_u64_le(data, 393),
                padding: read_array::<15>(data, 401),
            },
        )
    }
}

/// The sell event, 368 bytes.
#[derive(Clone, Copy, Debug)]
pub struct PumpswapSellEventIdl {
    pub discriminator: [u8; 16],
    pub timestamp: i64,
    pub base_amount_in: u64,
    pub min_quote_amount_out: u64,
    pub user_base_token_reserves: u64,
    pub user_quote_token_reserves: u64,
    /// The pool's reserves before the trade.
    pub pool_base_token_reserves: u64,
    pub pool_quote_token_reserves: u64,
    pub quote_amount_out: u64,
    pub lp_fee_basis_points: u64,
    pub lp_fee: u64,
    pub protocol_fee_basis_points: u64,
    pub protocol_fee: u64,
    pub quote_amount_out_without_lp_fee: u64,
    /// What the user received.
    pub user_quote_amount_out: u64,
    pub pool: Address,
    pub user: Address,
    pub user_base_token_account: Address,
    pub user_quote_token_account: Address,
    pub protocol_fee_recipient: Address,
    pub protocol_fee_recipient_token_account: Address,
    pub coin_creator: Address,
    pub coin_creator_fee_basis_points: u64,
    pub coin_creator_fee: u64,
}

impl PumpswapSellEventIdl {
    /// The number of bytes of the layout.
    pub const LEN: usize = 368;

    /// Whether `data` is an encoding of the layout: it has the layout's
    /// length.
    pub open spec fn recognizes(data: Seq<u8>) -> bool {
        &&& data.len() == 368
    }

    /// The value that `data` encodes, field after field, integers least
    /// significant byte first.
    pub open spec fn of(data: Seq<u8>) -> PumpswapSellEventIdl {
        PumpswapSellEventIdl {
            discriminator: bytes_array::<16>(data.subrange(0, 16)),
            timestamp: le_i64_value(data, 16) as i64,
            base_amount_in: le_value(data, 24, 8) as u64,
            min_quote_amount_out: le_value(data, 32, 8) as u64,
            user_base_token_reserves: le_value(data, 40, 8) as u64,
            user_quote_token_reserves: le_value(data, 48, 8) as u64,
            pool_base_token_reserves: le_value(data, 56, 8) as u64,
            pool_quote_token_reserves: le_value(data, 64, 8) as u64,
            quote_amount_out: le_value(data, 72, 8) as u64,
            lp_fee_basis_points: le_value(data, 80, 8) as u64,
            lp_fee: le_value(data, 88, 8) as u64,
            protocol_fee_basis_points: le_value(data, 96, 8) as u64,
            protocol_fee: le_value(data, 104, 8) as u64,
            quote_amount_out_without_lp_fee: le_value(data, 112, 8) as u64,
            user_quote_amount_out: le_value(data, 120, 8) as u64,
            pool: address_of(data.subrange(128, 160)),
            user: address_of(data.subrange(160, 192)),
            user_base_token_account: address_of(data.subrange(192, 224)),
            user_quote_token_account: address_of(data.subrange(224, 256)),
            protocol_fee_recipient: address_of(data.subrange(256, 288)),
            protocol_fee_recipient_token_account: address_of(data.subrange(288, 320)),
            coin_creator: address_of(data.subrange(320, 352)),
            coin_creator_fee_basis_points: le_value(data, 352, 8) as u64,
            coin_creator_fee: le_value(data, 360, 8) as u64,
        }
    }

    /// Decodes the layout from `data`, which must hold it exactly.
    pub fn try_from_slice(data: &[u8]) -> (r: Option<PumpswapSellEventIdl>)
        ensures
            r == if PumpswapSellEventIdl::recognizes(data@) {
                Some(PumpswapSellEventIdl::of(data@))
            } else {
                None::<PumpswapSellEventIdl>
            },
    {
        if data.len() != 368 {
            return None;
        }
        Some(
            PumpswapSellEventIdl {
                discriminator: read_array::<16>(data, 0),
                timestamp: read_i64_le(data, 16),
                base_amount_in: read_u64_le(data, 24),
                min_quote_amount_out: read_u64_le(data, 32),
                user_base_token_reserves: read_u64_le(data, 40),
                user_quote_token_reserves: read_u64_le(data, 48),
                pool_base_token_reserves: read_u64_le(data, 56),
                pool_quote_token_reserves: read_u64_le(data, 64),
                quote_amount_out: read_u64_le(data, 72),
                lp_fee_basis_points: read_u64_le(data, 80),
                lp_fee: read_u64_le(data, 88),
                protocol_fee_basis_points: read_u64_le(data, 96),
                protocol_fee: read_u64_le(data, 104),
                quote_amount_out_without_lp_fee: read_u64_le(data, 112),
                user_quote_amount_out: read_u64_le(data, 120),
                pool: read_address(data, 128),
                user: read_address(data, 160),
                user_base_token_account: read_address(data, 192),
                user_quote_token_account: read_address(data, 224),
                protocol_fee_recipient: read_address(data, 256),
                protocol_fee_recipient_token_account: read_address(data, 288),
                coin_creator: read_address(data, 320),
                coin_creator_fee_basis_points: read_u64_le(data, 352),
                coin_creator_fee: read_u64_le(data, 360),
            },
        )
    }
}

} // verus!
