//! The stake program: pools shared by many depositors, their delegates, and
//! the proportional share ledger.

pub mod state;
pub mod ledger;
pub mod instruction;
pub mod processor;
