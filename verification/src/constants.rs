//! Pause flag bits and the caps a new vault starts with.
use vstd::prelude::*;

verus! {

/// Pause flag bit that stops deposits.
pub const PAUSE_DEPOSIT: u8 = 1 << 0;

/// Pause flag bit that stops withdrawals.
pub const PAUSE_WITHDRAW: u8 = 1 << 1;

/// Pause flag bit that stops compounding.
pub const PAUSE_COMPOUND: u8 = 1 << 2;

/// Cap on the vault's total assets when it is created.
pub const DEFAULT_MAX_TOTAL_ASSETS: u64 = 1_000_000_000_000;

/// Cap on a single deposit when the vault is created.
pub const DEFAULT_MAX_DEPOSIT_PER_TX: u64 = 100_000_000_000;

/// Cap on a single compound when the vault is created.
pub const DEFAULT_MAX_COMPOUND_PER_TX: u64 = 100_000_000_000;

/// Whether the bit `flag` is set in `flags`.
pub open spec fn flag_set(flags: u8, flag: u8) -> bool {
    flags & flag != 0
}

} // verus!
