//! The binary layouts of the protocols' events.

pub mod pumpfun;
pub mod pumpswap;
pub mod raydium;
