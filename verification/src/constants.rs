//! Program addresses, discriminators and account positions of the supported
//! protocols, and the fixed-point scale of prices and fees.

use vstd::prelude::*;

verus! {

/// The scale of prices and fee fractions: the value that stands for 1.
pub const SCALE: u128 = 1_000_000_000;

/// The Raydium AMM v4 program.
pub const RAYDIUM_AMM_PROGRAM: [u8; 32] = [
    75, 217, 73, 196, 54, 2, 195, 63, 32, 119, 144, 237, 22, 163, 82, 76,
    161, 185, 151, 92, 241, 33, 162, 169, 12, 255, 236, 125, 248, 182, 138, 205,
];

/// The Raydium CPMM program.
pub const RAYDIUM_CPMM_PROGRAM: [u8; 32] = [
    169, 42, 90, 139, 79, 41, 89, 82, 132, 37, 80, 170, 147, 253, 91, 149,
    181, 172, 230, 168, 235, 146, 12, 147, 148, 46, 67, 105, 12, 32, 236, 115,
];

/// The Raydium Launchpad program.
pub const RAYDIUM_LAUNCHPAD_PROGRAM: [u8; 32] = [
    5, 4, 59, 149, 77, 202, 38, 225, 239, 145, 181, 44, 79, 143, 137, 175,
    138, 111, 90, 200, 198, 33, 86, 241, 113, 207, 15, 33, 172, 81, 201, 34,
];

/// The Pumpfun bonding-curve program.
pub const PUMP_BONDING_CURVE_PROGRAM: [u8; 32] = [
    1, 86, 224, 246, 147, 102, 90, 207, 68, 219, 21, 104, 191, 23, 91, 170,
    81, 137, 203, 151, 245, 210, 255, 59, 101, 93, 43, 182, 253, 109, 24, 176,
];

/// The account that signs the bonding-curve program's events.
pub const PUMP_BONDING_CURVE_EVENT_AUTHORITY: [u8; 32] = [
    172, 241, 54, 235, 1, 252, 28, 78, 136, 61, 35, 200, 181, 132, 74, 181,
    154, 55, 246, 106, 221, 87, 197, 233, 172, 59, 83, 224, 89, 211, 92, 100,
];

/// The Pumpswap AMM program.
pub const PUMP_SWAP_PROGRAM: [u8; 32] = [
    12, 20, 222, 252, 130, 94, 198, 118, 148, 37, 8, 24, 187, 101, 64, 101,
    244, 41, 141, 49, 86, 213, 113, 180, 212, 248, 9, 12, 24, 233, 168, 99,
];

/// The mint of wrapped SOL.
pub const WSOL_MINT: [u8; 32] = [
    6, 155, 136, 87, 254, 171, 129, 132, 251, 104, 127, 99, 70, 24, 192, 53,
    218, 196, 57, 220, 26, 235, 59, 85, 152, 160, 240, 0, 0, 0, 0, 1,
];

/// The seed of a bonding curve's address.
pub const BONDING_CURVE_SEED: [u8; 13] = [
    98, 111, 110, 100, 105, 110, 103, 45, 99, 117, 114, 118, 101,
];

// Raydium AMM v4

pub const AMMV4_MIN_DATA_LEN: usize = 17;
pub const AMMV4_MIN_ACCOUNTS: usize = 17;
pub const AMMV4_SWAP_BASE_IN: u8 = 9;
pub const AMMV4_SWAP_BASE_OUT: u8 = 11;
pub const AMMV4_MARKET_POSITION: usize = 1;
/// The fee of every AMM v4 pool, 0.25%.
pub const AMMV4_FEE_FRACTION: u64 = 2_500_000;

// Raydium CPMM

pub const CPMM_MIN_DATA_LEN: usize = 24;
pub const CPMM_MIN_ACCOUNTS: usize = 13;
pub const CPMM_SWAP_BASE_INPUT: [u8; 8] = [143, 190, 90, 218, 196, 30, 51, 222];
pub const CPMM_SWAP_BASE_OUTPUT: [u8; 8] = [55, 217, 98, 86, 163, 74, 180, 173];
pub const CPMM_FEE_CONFIG_POSITION: usize = 2;
pub const CPMM_MARKET_POSITION: usize = 3;
pub const CPMM_INPUT_VAULT_POSITION: usize = 6;
pub const CPMM_OUTPUT_VAULT_POSITION: usize = 7;
pub const CPMM_INPUT_MINT_POSITION: usize = 10;
pub const CPMM_OUTPUT_MINT_POSITION: usize = 11;

// Raydium Launchpad

pub const LAUNCHPAD_MIN_DATA_LEN: usize = 32;
pub const LAUNCHPAD_MIN_ACCOUNTS: usize = 14;
pub const LAUNCHPAD_BUY_EXACT_IN: [u8; 8] = [250, 234, 13, 123, 213, 156, 19, 236];
pub const LAUNCHPAD_SELL_EXACT_IN: [u8; 8] = [149, 39, 222, 155, 211, 124, 152, 26];
pub const LAUNCHPAD_BUY_EXACT_OUT: [u8; 8] = [24, 211, 116, 40, 105, 3, 153, 56];
pub const LAUNCHPAD_SELL_EXACT_OUT: [u8; 8] = [95, 200, 71, 34, 8, 9, 11, 166];
pub const LAUNCHPAD_MARKET_POSITION: usize = 4;
pub const LAUNCHPAD_TOKEN_A_POSITION: usize = 9;
pub const LAUNCHPAD_TOKEN_B_POSITION: usize = 10;

// Pumpswap

pub const PUMPSWAP_MIN_DATA_LEN: usize = 24;
pub const PUMPSWAP_BUY: [u8; 8] = [102, 6, 61, 18, 1, 218, 235, 234];
pub const PUMPSWAP_SELL: [u8; 8] = [51, 230, 133, 164, 1, 127, 131, 173];
pub const PUMPSWAP_BUY_EXACT_QUOTE_IN: [u8; 8] = [198, 46, 21, 82, 180, 217, 232, 112];
pub const PUMPSWAP_MARKET_POSITION: usize = 0;
pub const PUMPSWAP_TOKEN_A_POSITION: usize = 3;
pub const PUMPSWAP_TOKEN_B_POSITION: usize = 4;
pub const PUMPSWAP_BUY_EVENT_LEN_OLD: usize = 401;
pub const PUMPSWAP_BUY_EVENT_LEN_CURRENT: usize = 416;
pub const PUMPSWAP_BUY_EVENT_LEN_EXACT_QUOTE_IN: usize = 431;

// Pumpfun bonding curve

pub const PF_EVENT_MIN_DATA_LEN: usize = 100;
pub const PF_EVENT_MIN_ACCOUNTS: usize = 1;
pub const PF_EVENT_DISCRIMINATOR: [u8; 16] = [
    228, 69, 165, 46, 81, 203, 154, 29, 189, 219, 127, 211, 78, 230, 97, 238,
];
pub const PF_EVENT_LEN_OLD: usize = 137;
pub const PF_EVENT_OLD_FIELDS_LEN: usize = 121;
pub const PF_EVENT_LEN_CURRENT: usize = 266;
pub const PF_EVENT_LEN_BUY: usize = 273;
pub const PF_EVENT_LEN_SELL: usize = 274;
pub const PF_EVENT_LEN_BUY_EXACT_SOL_IN: usize = 286;
/// The fee of the old event layout, 1%.
pub const PF_OLD_FEE_FRACTION: u64 = 10_000_000;
/// What one basis point is on the scale of fee fractions.
pub const FEE_FRACTION_PER_BASIS_POINT: u128 = 100_000;
/// What a new curve's virtual token reserves exceed its real ones by.
pub const PF_INIT_VIRTUAL_TOKEN_RESERVE_DIFF: u64 = 279_900_000_000_000;
/// A new curve's virtual SOL reserves.
pub const PF_INIT_VIRTUAL_SOL_RESERVES: u64 = 30_000_000_000;
pub const PF_CREATE_MIN_DATA_LEN: usize = 40;
pub const PF_CREATE_MIN_ACCOUNTS: usize = 14;
pub const PF_CREATE_DISCRIMINATOR: [u8; 8] = [24, 30, 200, 40, 5, 28, 7, 119];
pub const PF_CREATE_ADDRESS_POSITION: usize = 0;
pub const PF_CREATE_MARKET_POSITION: usize = 2;
pub const PF_CREATE_CREATOR_POSITION: usize = 7;

} // verus!
