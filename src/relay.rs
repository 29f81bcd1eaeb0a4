//! The relay program: relayers, per-user escrows and commission collection.

pub mod state;
pub mod instruction;
pub mod commission;
pub mod processor;
