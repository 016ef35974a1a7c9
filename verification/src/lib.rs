//! Decoding of raw Solana transactions into standardized swap and
//! token-creation events.
//!
//! The crate classifies each instruction of a transaction by protocol,
//! decodes the protocol's binary event layouts into [`types::SwapTx`] and
//! [`types::TokenCreation`] values, and walks the two-level instruction tree
//! of a transaction while keeping the running token balances of its accounts.
//!
//! - [`classify`] recognizes the protocol and action of an instruction.
//! - [`protocol_idls`] holds the binary layouts of the protocols' events.
//! - [`decode`] holds one decoder for each protocol.
//! - [`tables`] holds the running balances, the mints and the fee
//!   configuration of a transaction, [`signers`] the set of its signers.
//! - [`walk`] goes through the instructions of a transaction in program
//!   order, and [`analyze`] does so for a normalized transaction.
//! - [`laws`] states and proves what holds of every decode.
//! - [`outside`] holds the calls into other crates, whose contracts are
//!   believed and not proved.

pub mod address;
pub mod analyze;
pub mod bytes;
pub mod classify;
pub mod constants;
pub mod decode;
pub mod laws;
pub mod math;
pub mod metadata;
pub mod outside;
pub mod protocol_idls;
pub mod signers;
pub mod tables;
pub mod types;
pub mod walk;

pub use address::Address;
pub use address::Signature;
pub use analyze::analyze_tx;
pub use analyze::NormalizedTx;
pub use analyze::TokenBalance;
pub use analyze::TokenMint;
pub use classify::classify_instruction;
pub use classify::is_pf_bonding_curve_create_instruction;
pub use classify::is_pumpfun_event_instruction;
pub use classify::is_pumpswap_swap_instruction;
pub use classify::is_raydium_ammv4_swap_instruction;
pub use classify::is_raydium_cpmm_swap_instruction;
pub use classify::is_raydium_launchpad_swap_instruction;
pub use decode::pumpfun_create::process_pf_bonding_curve_create_instruction;
pub use decode::pumpfun_event::process_pumpfun_event_instruction;
pub use decode::pumpswap::process_pumpswap_swap_instruction;
pub use decode::raydium_ammv4::process_raydium_ammv4_swap_instruction;
pub use decode::raydium_cpmm::process_raydium_cpmm_swap_instruction;
pub use decode::raydium_launchpad::process_raydium_launchpad_swap_instruction;
pub use metadata::token_metadata;
pub use protocol_idls::pumpfun::PfTradeEventIdlCurrent;
pub use protocol_idls::pumpfun::PfTradeEventIdlOld;
pub use protocol_idls::pumpswap::PumpAmmCreatePoolInstructionDataIdl;
pub use protocol_idls::pumpswap::PumpswapBuyEventIdlCurrent;
pub use protocol_idls::pumpswap::PumpswapBuyEventIdlOld;
pub use protocol_idls::pumpswap::PumpswapSellEventIdl;
pub use protocol_idls::raydium::LaunchpadTradeEventIdl;
pub use signers::Signers;
pub use tables::FeeConfigEntry;
pub use types::DecodeError;
pub use types::Instruction;
pub use types::InstructionType;
pub use types::Outcome;
pub use types::Pools;
pub use types::SwapDirection;
pub use types::SwapTx;
pub use types::TokenCreation;
pub use walk::nested::inner_instructions_loop;
pub use walk::top_level::top_level_instructions_loop;
