//! The walk over the instructions of a transaction.

pub mod nested;
pub mod report;
pub mod top_level;
