//! Initialize: a new, empty vault with the default caps.
use vstd::prelude::*;
use crate::constants::{DEFAULT_MAX_COMPOUND_PER_TX, DEFAULT_MAX_DEPOSIT_PER_TX, DEFAULT_MAX_TOTAL_ASSETS};
use crate::key::Key;
use crate::state::Vault;

verus! {

/// The accounts of a vault's creation, by the keys it records.
#[derive(Clone, Copy, Debug, PartialEq, Eq, Structural)]
pub struct InitializeVault {
    /// The creator, who signs and becomes the admin.
    pub admin: Key,
    /// The mint of the vault's asset.
    pub xnt_mint: Key,
    /// The token account that holds the vault's assets.
    pub vault_token_account: Key,
    /// The bump of the vault's address.
    pub vault_bump: u8,
}

/// The vault created by `accounts.admin` with `strategist`: no assets, no
/// shares, the default caps and nothing paused.
pub fn handle(accounts: &InitializeVault, strategist: Key) -> (vault: Vault)
    ensures
        vault == (Vault {
            admin: accounts.admin,
            strategist,
            xnt_mint: accounts.xnt_mint,
            vault_token_account: accounts.vault_token_account,
            total_assets: 0,
            total_shares: 0,
            max_total_assets: DEFAULT_MAX_TOTAL_ASSETS,
            max_deposit_per_tx: DEFAULT_MAX_DEPOSIT_PER_TX,
            max_compound_per_tx: DEFAULT_MAX_COMPOUND_PER_TX,
            pause_flags: 0,
            bump: accounts.vault_bump,
        }),
        vault.shares_backed(),
{
    Vault {
        admin: accounts.admin,
        strategist,
        xnt_mint: accounts.xnt_mint,
        vault_token_account: accounts.vault_token_account,
        total_assets: 0,
        total_shares: 0,
        max_total_assets: DEFAULT_MAX_TOTAL_ASSETS,
        max_deposit_per_tx: DEFAULT_MAX_DEPOSIT_PER_TX,
        max_compound_per_tx: DEFAULT_MAX_COMPOUND_PER_TX,
        pause_flags: 0,
        bump: accounts.vault_bump,
    }
}

} // verus!
