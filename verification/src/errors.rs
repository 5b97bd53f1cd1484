//! Why an instruction is refused.
use vstd::prelude::*;

verus! {

/// Errors raised by the vault's own rules.
#[derive(Clone, Copy, Debug, PartialEq, Eq, Structural)]
pub enum VaultError {
    /// Amount must be greater than zero.
    ZeroAmount,
    /// Math overflow.
    MathOverflow,
    /// Invalid share state.
    InvalidShareState,
    /// Deposits are paused.
    DepositsPaused,
    /// Withdrawals are paused.
    WithdrawalsPaused,
    /// Compounding is paused.
    CompoundPaused,
    /// Unauthorized caller.
    Unauthorized,
    /// Vault total asset cap exceeded.
    TotalAssetCapExceeded,
    /// Deposit amount exceeds per-transaction cap.
    DepositCapExceeded,
    /// Compound amount exceeds per-transaction cap.
    CompoundCapExceeded,
    /// Insufficient user shares.
    InsufficientShares,
    /// Invalid pause flags.
    InvalidPauseFlags,
}

/// Errors of an instruction: one of the vault's own, or an account that does
/// not match the one the vault records (a constraint without its own error).
#[derive(Clone, Copy, Debug, PartialEq, Eq, Structural)]
pub enum InstructionError {
    Vault(VaultError),
    ConstraintRaw,
}

} // verus!
