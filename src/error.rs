//! Failures, by cause. Each maps to one numeric abort code.

use vstd::prelude::*;

verus! {

/// Why an account failed its precondition check.
#[derive(Clone, Copy, Debug, PartialEq, Eq, Structural)]
pub enum LoadError {
    /// The caller did not sign for an account that must sign.
    MissingSignature,
    /// The account is not owned by the expected program.
    OwnerMismatch,
    /// The account holds no bytes.
    Uninitialized,
    /// The account was expected to be unallocated, but holds bytes.
    AlreadyInitialized,
    /// The leading tag or the length disagrees with the expected record.
    ShapeMismatch,
    /// The stored authority, or another stored binding, is not the expected one.
    AuthorityMismatch,
    /// Write access was required but not granted.
    NotWritable,
    /// The account's address is not the one its derivation path gives.
    InvalidDerivation,
}

impl LoadError {
    /// The numeric abort code of this failure.
    pub open spec fn value(self) -> u32 {
        match self {
            LoadError::MissingSignature => 1,
            LoadError::OwnerMismatch => 2,
            LoadError::Uninitialized => 3,
            LoadError::AlreadyInitialized => 4,
            LoadError::ShapeMismatch => 5,
            LoadError::AuthorityMismatch => 6,
            LoadError::NotWritable => 7,
            LoadError::InvalidDerivation => 8,
        }
    }

    /// The numeric abort code of this failure.
    pub fn code(&self) -> (r: u32)
        ensures
            r == self.value(),
    {
        match self {
            LoadError::MissingSignature => 1,
            LoadError::OwnerMismatch => 2,
            LoadError::Uninitialized => 3,
            LoadError::AlreadyInitialized => 4,
            LoadError::ShapeMismatch => 5,
            LoadError::AuthorityMismatch => 6,
            LoadError::NotWritable => 7,
            LoadError::InvalidDerivation => 8,
        }
    }
}

/// Failures of the relay program: escrows, relayers and commission collection.
#[derive(Clone, Copy, Debug, PartialEq, Eq, Structural)]
pub enum RelayError {
    /// An account failed its precondition check.
    Load(LoadError),
    /// Fewer accounts were supplied than the operation needs.
    NotEnoughAccounts,
    /// The payload's tag or body is malformed.
    InvalidInstruction,
    /// The operation was addressed to another program.
    IncorrectProgramId,
    /// Only the program's administrator may register a relayer.
    UnauthorizedRelayer,
    /// The miner presented is not the one the relayer declares.
    MinerMismatch,
    /// The signer is not the designated miner of the escrow's relayer.
    NotDesignatedMiner,
    /// Commission was already collected for the current accrual fingerprint.
    AlreadyCollected,
    /// The escrow cannot pay the requested fee.
    InsufficientFunds,
    /// The escrow's external position still holds a balance.
    BalanceNotZero,
}

impl RelayError {
    /// The numeric abort code of this failure.
    pub open spec fn value(self) -> u32 {
        match self {
            RelayError::Load(e) => e.value(),
            RelayError::NotEnoughAccounts => 100,
            RelayError::InvalidInstruction => 101,
            RelayError::IncorrectProgramId => 102,
            RelayError::UnauthorizedRelayer => 200,
            RelayError::MinerMismatch => 201,
            RelayError::NotDesignatedMiner => 202,
            RelayError::AlreadyCollected => 203,
            RelayError::InsufficientFunds => 204,
            RelayError::BalanceNotZero => 205,
        }
    }

    /// The numeric abort code of this failure.
    pub fn code(&self) -> (r: u32)
        ensures
            r == self.value(),
    {
        match self {
            RelayError::Load(e) => e.code(),
            RelayError::NotEnoughAccounts => 100,
            RelayError::InvalidInstruction => 101,
            RelayError::IncorrectProgramId => 102,
            RelayError::UnauthorizedRelayer => 200,
            RelayError::MinerMismatch => 201,
            RelayError::NotDesignatedMiner => 202,
            RelayError::AlreadyCollected => 203,
            RelayError::InsufficientFunds => 204,
            RelayError::BalanceNotZero => 205,
        }
    }
}

/// Failures of the stake program: pools, delegates and the share ledger.
#[derive(Clone, Copy, Debug, PartialEq, Eq, Structural)]
pub enum StakeError {
    /// An account failed its precondition check.
    Load(LoadError),
    /// Fewer accounts were supplied than the operation needs.
    NotEnoughAccounts,
    /// The payload's tag or body is malformed.
    InvalidInstruction,
    /// The operation was addressed to another program.
    IncorrectProgramId,
    /// The pool does not accept deposits.
    PoolClosed,
    /// The withdrawal exceeds the delegate's balance.
    InsufficientBalance,
    /// The delegate still holds a balance.
    BalanceNotZero,
}

impl StakeError {
    /// The numeric abort code of this failure.
    pub open spec fn value(self) -> u32 {
        match self {
            StakeError::Load(e) => e.value(),
            StakeError::NotEnoughAccounts => 100,
            StakeError::InvalidInstruction => 101,
            StakeError::IncorrectProgramId => 102,
            StakeError::PoolClosed => 300,
            StakeError::InsufficientBalance => 301,
            StakeError::BalanceNotZero => 302,
        }
    }

    /// The numeric abort code of this failure.
    pub fn code(&self) -> (r: u32)
        ensures
            r == self.value(),
    {
        match self {
            StakeError::Load(e) => e.code(),
            StakeError::NotEnoughAccounts => 100,
            StakeError::InvalidInstruction => 101,
            StakeError::IncorrectProgramId => 102,
            StakeError::PoolClosed => 300,
            StakeError::InsufficientBalance => 301,
            StakeError::BalanceNotZero => 302,
        }
    }
}

} // verus!
