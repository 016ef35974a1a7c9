//! The trade event of Raydium Launchpad.

use vstd::prelude::*;
use crate::address::Address;
use crate::address::address_of;
use crate::address::bytes_array;
use crate::bytes::bool_value;
use crate::bytes::le_value;
use crate::bytes::read_address;
use crate::bytes::read_array;
use crate::bytes::read_bool;
use crate::bytes::read_u64_le;

verus! {

/// The trade event, 155 bytes.
#[derive(Clone, Copy, Debug)]
pub struct LaunchpadTradeEventIdl {
    pub discriminator: [u8; 16],
    pub pool_state: Address,
    pub total_base_sell: u64,
    pub virtual_base: u64,
    pub virtual_quote: u64,
    pub real_base_before: u64,
    pub real_quote_before: u64,
    pub real_base_after: u64,
    pub real_quote_after: u64,
    pub amount_in: u64,
    pub amount_out: u64,
    pub protocol_fee: u64,
    pub platform_fee: u64,
    pub creator_fee: u64,
    pub share_fee: u64,
    /// 0 for a buy, 1 for a sell.
    pub trade_direction: u8,
    pub pool_status: u8,
    pub exact_in: bool,
}

impl LaunchpadTradeEventIdl {
    /// The number of bytes of the layout.
    pub const LEN: usize = 155;

    /// Whether `data` is an encoding of the layout: it has the layout's
    /// length, and each flag is 0 or 1.
    pub open spec fn recognizes(data: Seq<u8>) -> bool {
        &&& data.len() == 155
        &&& bool_value(data, 154) is Some
    }

    /// The value that `data` encodes, field after field, integers least
    /// significant byte first.
    pub open spec fn of(data: Seq<u8>) -> LaunchpadTradeEventIdl {
        LaunchpadTradeEventIdl {
            discriminator: bytes_array::<16>(data.subrange(0, 16)),
            pool_state: address_of(data.subrange(16, 48)),
            total_base_sell: le_value(data, 48, 8) as u64,
            virtual_base: le_value(data, 56, 8) as u64,
            virtual_quote: le_value(data, 64, 8) as u64,
            real_base_before: le_value(data, 72, 8) as u64,
            real_quote_before: le_value(data, 80, 8) as u64,
            real_base_after: le_value(data, 88, 8) as u64,
            real_quote_after: le_value(data, 96, 8) as u64,
            amount_in: le_value(data, 104, 8) as u64,
            amount_out: le_value(data, 112, 8) as u64,
            protocol_fee: le_value(data, 120, 8) as u64,
            platform_fee: le_value(data, 128, 8) as u64,
            creator_fee: le_value(data, 136, 8) as u64,
            share_fee: le_value(data, 144, 8) as u64,
            trade_direction: data[152],
            pool_status: data[153],
            exact_in: bool_value(data, 154) == Some(true),
        }
    }

    /// Decodes the layout from `data`, which must hold it exactly.
    pub fn try_from_slice(data: &[u8]) -> (r: Option<LaunchpadTradeEventIdl>)
        ensures
            r == if LaunchpadTradeEventIdl::recognizes(data@) {
                Some(LaunchpadTradeEventIdl::of(data@))
            } else {
                None::<LaunchpadTradeEventIdl>
            },
    {
        if data.len() != 155 {
            return None;
        }
        let exact_in: bool = match read_bool(data, 154) {
            Some(flag) => flag,
            None => {
                return None;
            },
        };
        Some(
            LaunchpadTradeEventIdl {
                discriminator: read_array::<16>(data, 0),
                pool_state: read_address(data, 16),
                total_base_sell: read_u64_le(data, 48),
                virtual_base: read_u64_le(data, 56),
                virtual_quote: read_u64_le(data, 64),
                real_base_before: read_u64_le(data, 72),
                real_quote_before: read_u64_le(data, 80),
                real_base_after: read_u64_le(data, 88),
                real_quote_after: read_u64_le(data, 96),
                amount_in: read_u64_le(data, 104),
                amount_out: read_u64_le(data, 112),
                protocol_fee: read_u64_le(data, 120),
                platform_fee: read_u64_le(data, 128),
                creator_fee: read_u64_le(data, 136),
                share_fee: read_u64_le(data, 144),
                trade_direction: data[152],
                pool_status: data[153],
                exact_in,
            },
        )
    }
}

} // verus!
