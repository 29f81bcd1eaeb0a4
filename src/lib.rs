//! Custodial accounting for relayers and staking pools that proxy users into an
//! external mining-reward ledger: record codecs, account loaders, the escrow
//! lifecycle, the commission guard and the proportional share ledger.
//!
//! Every operation is a pure decision over account snapshots. It either fails
//! with a specific error, or returns the plan of record writes and external
//! ledger calls that the host must carry out, in order, within one atomic unit.

pub mod bytes;
pub mod address;
pub mod seeds;
pub mod error;
pub mod account;
pub mod ledger;
pub mod loaders;
pub mod relay;
pub mod stake;
pub mod board;
