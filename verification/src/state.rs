//! The vault's record and a user's position in it.
use vstd::prelude::*;
use crate::key::Key;

verus! {

/// The vault: who may act on it, which accounts it uses, its share
/// accounting, its caps and its pause flags.
#[derive(Clone, Copy, Debug, PartialEq, Eq, Structural)]
pub struct Vault {
    pub admin: Key,
    pub strategist: Key,
    pub xnt_mint: Key,
    pub vault_token_account: Key,
    pub total_assets: u64,
    pub total_shares: u64,
    pub max_total_assets: u64,
    pub max_deposit_per_tx: u64,
    pub max_compound_per_tx: u64,
    pub pause_flags: u8,
    pub bump: u8,
}

/// One owner's shares in one vault.
#[derive(Clone, Copy, Debug, PartialEq, Eq, Structural)]
pub struct Position {
    pub owner: Key,
    pub vault: Key,
    pub shares: u64,
    pub bump: u8,
}

impl Vault {
    /// Every share is backed by at least one asset. Share issue starts at one
    /// share per asset and every rounding goes in the vault's favour, so the
    /// instructions keep this.
    pub open spec fn shares_backed(self) -> bool {
        self.total_shares <= self.total_assets
    }

    /// The value of a share, as a fraction, is at least that of `before`:
    /// `total_assets / total_shares >= before.total_assets / before.total_shares`,
    /// written without division.
    pub open spec fn share_value_at_least(self, before: Vault) -> bool {
        (before.total_assets as int) * (self.total_shares as int)
            <= (self.total_assets as int) * (before.total_shares as int)
    }

    /// The vault with everything but its share accounting unchanged.
    pub open spec fn with_totals(self, total_assets: u64, total_shares: u64) -> Vault {
        Vault { total_assets, total_shares, ..self }
    }
}

} // verus!
