//! What holds of every decode.

pub mod classification;
pub mod events;
pub mod order;
