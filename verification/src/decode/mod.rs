//! The decoders of the supported protocols.

pub mod common;
pub mod pumpfun_create;
pub mod pumpfun_event;
pub mod pumpswap;
pub mod raydium_ammv4;
pub mod raydium_cpmm;
pub mod raydium_launchpad;
