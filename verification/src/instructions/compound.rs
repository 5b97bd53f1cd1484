//! Compound: the strategist adds reward assets to the vault without minting
//! shares, which raises the value of every share.
use vstd::prelude::*;
use crate::constants::{flag_set, PAUSE_COMPOUND};
use crate::errors::{InstructionError, VaultError};
use crate::events::CompoundEvent;
use crate::key::Key;
use crate::state::Vault;

verus! {

/// The accounts of a compound, by the keys that the rules compare.
#[derive(Clone, Copy, Debug, PartialEq, Eq, Structural)]
pub struct Compound {
    /// The caller, who signs.
    pub strategist: Key,
    /// The mint of the token account the rewards come from.
    pub strategist_reward_mint: Key,
    /// The token account that is to receive the rewards.
    pub vault_token_account: Key,
}

/// A compound that passed its checks: the amount to transfer in and the
/// vault's assets afterwards.
#[derive(Clone, Copy, Debug, PartialEq, Eq, Structural)]
pub struct CompoundPlan {
    pub amount: u64,
    pub new_total_assets: u64,
}

/// The checks made before any asset moves, in the order they are made.
pub open spec fn spec_validate(vault: Vault, accounts: Compound, amount: u64) -> Result<CompoundPlan, InstructionError> {
    if vault.strategist != accounts.strategist {
        Err(InstructionError::Vault(VaultError::Unauthorized))
    } else if vault.vault_token_account != accounts.vault_token_account
        || accounts.strategist_reward_mint != vault.xnt_mint {
        Err(InstructionError::ConstraintRaw)
    } else if amount == 0 {
        Err(InstructionError::Vault(VaultError::ZeroAmount))
    } else if flag_set(vault.pause_flags, PAUSE_COMPOUND) {
        Err(InstructionError::Vault(VaultError::CompoundPaused))
    } else if amount > vault.max_compound_per_tx {
        Err(InstructionError::Vault(VaultError::CompoundCapExceeded))
    } else if vault.total_assets + amount > u64::MAX {
        Err(InstructionError::Vault(VaultError::MathOverflow))
    } else if vault.total_assets + amount > vault.max_total_assets {
        Err(InstructionError::Vault(VaultError::TotalAssetCapExceeded))
    } else {
        Ok(CompoundPlan { amount, new_total_assets: (vault.total_assets + amount) as u64 })
    }
}

/// What a planned compound does once the rewards have arrived.
pub open spec fn spec_settle(vault: Vault, accounts: Compound, plan: CompoundPlan) -> (Vault, CompoundEvent) {
    let new_vault = vault.with_totals(plan.new_total_assets, vault.total_shares);
    (
        new_vault,
        CompoundEvent {
            strategist: accounts.strategist,
            amount: plan.amount,
            total_assets: new_vault.total_assets,
            total_shares: new_vault.total_shares,
        },
    )
}

/// The whole compound.
pub open spec fn spec_compound(vault: Vault, accounts: Compound, amount: u64) -> Result<(Vault, CompoundEvent), InstructionError> {
    match spec_validate(vault, accounts, amount) {
        Err(e) => Err(e),
        Ok(plan) => Ok(spec_settle(vault, accounts, plan)),
    }
}

/// Checks a compound of `amount` against the vault before any asset moves.
pub fn validate(vault: &Vault, accounts: &Compound, amount: u64) -> (r: Result<CompoundPlan, InstructionError>)
    ensures
        r == spec_validate(*vault, *accounts, amount),
{
    if vault.strategist != accounts.strategist {
        return Err(InstructionError::Vault(VaultError::Unauthorized));
    }
    if vault.vault_token_account != accounts.vault_token_account
        || accounts.strategist_reward_mint != vault.xnt_mint {
        return Err(InstructionError::ConstraintRaw);
    }
    if amount == 0 {
        return Err(InstructionError::Vault(VaultError::ZeroAmount));
    }
    if vault.pause_flags & PAUSE_COMPOUND != 0 {
        return Err(InstructionError::Vault(VaultError::CompoundPaused));
    }
    if amount > vault.max_compound_per_tx {
        return Err(InstructionError::Vault(VaultError::CompoundCapExceeded));
    }
    let new_total_assets = match vault.total_assets.checked_add(amount) {
        Some(total) => total,
        None => return Err(InstructionError::Vault(VaultError::MathOverflow)),
    };
    if new_total_assets > vault.max_total_assets {
        return Err(InstructionError::Vault(VaultError::TotalAssetCapExceeded));
    }
    Ok(CompoundPlan { amount, new_total_assets })
}

/// Credits planned rewards to the vault's assets.
pub fn settle(vault: &mut Vault, accounts: &Compound, plan: &CompoundPlan) -> (e: CompoundEvent)
    ensures
        (*final(vault), e) == spec_settle(*old(vault), *accounts, *plan),
{
    vault.total_assets = plan.new_total_assets;
    CompoundEvent {
        strategist: accounts.strategist,
        amount: plan.amount,
        total_assets: vault.total_assets,
        total_shares: vault.total_shares,
    }
}

/// A whole compound of `amount`: the checks, then the crediting. On an error
/// the vault does not change. A successful compound adds `amount` to the
/// vault's assets and nothing to its shares, stays within the caps, keeps
/// every share backed and never lowers the value of a share.
pub fn handle(vault: &mut Vault, accounts: &Compound, amount: u64) -> (r: Result<CompoundEvent, InstructionError>)
    ensures
        match spec_compound(*old(vault), *accounts, amount) {
            Ok((v, e)) => r == Ok::<CompoundEvent, InstructionError>(e) && *final(vault) == v,
            Err(err) => r == Err::<CompoundEvent, InstructionError>(err) && *final(vault) == *old(vault),
        },
        r is Ok ==> {
            &&& final(vault).total_assets == old(vault).total_assets + amount
            &&& final(vault).total_shares == old(vault).total_shares
            &&& old(vault).strategist == accounts.strategist
            &&& amount <= old(vault).max_compound_per_tx
            &&& final(vault).total_assets <= final(vault).max_total_assets
            &&& !flag_set(old(vault).pause_flags, PAUSE_COMPOUND)
            &&& final(vault).share_value_at_least(*old(vault))
            &&& old(vault).shares_backed() ==> final(vault).shares_backed()
        },
{
    let plan = match validate(vault, accounts, amount) {
        Ok(plan) => plan,
        Err(e) => return Err(e),
    };
    proof {
        let a = vault.total_assets as int;
        let s = vault.total_shares as int;
        let amt = amount as int;
        assert(a * s <= (a + amt) * s) by (nonlinear_arith)
            requires
                amt >= 0,
                s >= 0,
        ;
    }
    Ok(settle(vault, accounts, &plan))
}

} // verus!
