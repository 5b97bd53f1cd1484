//! What each instruction reports when it succeeds.
use vstd::prelude::*;
use crate::key::Key;

verus! {

/// A deposit: who deposited, how much, the shares minted and the new totals.
#[derive(Clone, Copy, Debug, PartialEq, Eq, Structural)]
pub struct DepositEvent {
    pub owner: Key,
    pub amount: u64,
    pub minted_shares: u64,
    pub total_assets: u64,
    pub total_shares: u64,
}

/// A withdrawal: who withdrew, the shares burned, the assets paid out and the
/// new totals.
#[derive(Clone, Copy, Debug, PartialEq, Eq, Structural)]
pub struct WithdrawEvent {
    pub owner: Key,
    pub shares_burned: u64,
    pub assets_out: u64,
    pub total_assets: u64,
    pub total_shares: u64,
}

/// A compound: the strategist, the amount added and the new totals.
#[derive(Clone, Copy, Debug, PartialEq, Eq, Structural)]
pub struct CompoundEvent {
    pub strategist: Key,
    pub amount: u64,
    pub total_assets: u64,
    pub total_shares: u64,
}

/// New pause flags set by the admin.
#[derive(Clone, Copy, Debug, PartialEq, Eq, Structural)]
pub struct PauseFlagsUpdatedEvent {
    pub admin: Key,
    pub pause_flags: u8,
}

/// A new strategist set by the admin.
#[derive(Clone, Copy, Debug, PartialEq, Eq, Structural)]
pub struct StrategistUpdatedEvent {
    pub admin: Key,
    pub strategist: Key,
}

/// New caps set by the admin.
#[derive(Clone, Copy, Debug, PartialEq, Eq, Structural)]
pub struct CapsUpdatedEvent {
    pub admin: Key,
    pub max_total_assets: u64,
    pub max_deposit_per_tx: u64,
    pub max_compound_per_tx: u64,
}

} // verus!
