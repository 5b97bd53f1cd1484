//! Withdraw: the owner redeems shares for a proportional part of the assets.
use vstd::prelude::*;
use vstd::arithmetic::div_mod::lemma_div_multiples_vanish;
use crate::constants::{flag_set, PAUSE_WITHDRAW};
use crate::errors::{InstructionError, VaultError};
use crate::events::WithdrawEvent;
use crate::key::Key;
use crate::math::{assets_from_shares, spec_assets_from_shares};
use crate::proofs::lemma_assets_out_bound;
use crate::state::{Position, Vault};

verus! {

/// The accounts of a withdrawal, by the keys that the rules compare.
#[derive(Clone, Copy, Debug, PartialEq, Eq, Structural)]
pub struct Withdraw {
    /// The owner of the position, who signs.
    pub owner: Key,
    /// The address of the vault account.
    pub vault: Key,
    /// The token account that is to pay the assets out.
    pub vault_token_account: Key,
}

/// A withdrawal that passed its checks: the shares to burn and the assets to
/// transfer out.
#[derive(Clone, Copy, Debug, PartialEq, Eq, Structural)]
pub struct WithdrawPlan {
    pub shares: u64,
    pub assets_out: u64,
}

/// The checks made before any asset moves, in the order they are made.
pub open spec fn spec_validate(vault: Vault, position: Position, accounts: Withdraw, shares: u64) -> Result<WithdrawPlan, InstructionError> {
    if position.owner != accounts.owner || position.vault != accounts.vault
        || vault.vault_token_account != accounts.vault_token_account {
        Err(InstructionError::ConstraintRaw)
    } else if shares == 0 {
        Err(InstructionError::Vault(VaultError::ZeroAmount))
    } else if flag_set(vault.pause_flags, PAUSE_WITHDRAW) {
        Err(InstructionError::Vault(VaultError::WithdrawalsPaused))
    } else if position.shares < shares {
        Err(InstructionError::Vault(VaultError::InsufficientShares))
    } else {
        match spec_assets_from_shares(shares, vault.total_assets, vault.total_shares) {
            Ok(assets_out) => Ok(WithdrawPlan { shares, assets_out }),
            Err(e) => Err(InstructionError::Vault(e)),
        }
    }
}

/// What a planned withdrawal does once the assets have left: the new vault,
/// the new position and the event, or the error that undoes the withdrawal.
pub open spec fn spec_settle(vault: Vault, position: Position, accounts: Withdraw, plan: WithdrawPlan) -> Result<(Vault, Position, WithdrawEvent), VaultError> {
    if position.shares < plan.shares || vault.total_shares < plan.shares
        || vault.total_assets < plan.assets_out {
        Err(VaultError::MathOverflow)
    } else {
        let new_vault = vault.with_totals(
            (vault.total_assets - plan.assets_out) as u64,
            (vault.total_shares - plan.shares) as u64,
        );
        Ok((
            new_vault,
            Position { shares: (position.shares - plan.shares) as u64, ..position },
            WithdrawEvent {
                owner: accounts.owner,
                shares_burned: plan.shares,
                assets_out: plan.assets_out,
                total_assets: new_vault.total_assets,
                total_shares: new_vault.total_shares,
            },
        ))
    }
}

/// The whole withdrawal.
pub open spec fn spec_withdraw(vault: Vault, position: Position, accounts: Withdraw, shares: u64) -> Result<(Vault, Position, WithdrawEvent), InstructionError> {
    match spec_validate(vault, position, accounts, shares) {
        Err(e) => Err(e),
        Ok(plan) => match spec_settle(vault, position, accounts, plan) {
            Ok(out) => Ok(out),
            Err(e) => Err(InstructionError::Vault(e)),
        },
    }
}

/// A successful withdrawal never lowers the value of a share: the assets it
/// pays out are worth no more than the shares it burns.
pub proof fn lemma_withdraw_keeps_share_value(vault: Vault, position: Position, accounts: Withdraw, shares: u64)
    requires
        spec_withdraw(vault, position, accounts, shares) is Ok,
    ensures
        spec_withdraw(vault, position, accounts, shares)->Ok_0.0.share_value_at_least(vault),
{
    let plan = spec_validate(vault, position, accounts, shares)->Ok_0;
    lemma_assets_out_bound(shares, vault.total_assets, vault.total_shares);
    let a = vault.total_assets as int;
    let s = vault.total_shares as int;
    let out = plan.assets_out as int;
    let burned = shares as int;
    assert(a * (s - burned) <= (a - out) * s) by (nonlinear_arith)
        requires
            out * s <= burned * a,
    ;
}

/// A successful withdrawal keeps every share backed by an asset.
pub proof fn lemma_withdraw_keeps_backing(vault: Vault, position: Position, accounts: Withdraw, shares: u64)
    requires
        vault.shares_backed(),
        spec_withdraw(vault, position, accounts, shares) is Ok,
    ensures
        spec_withdraw(vault, position, accounts, shares)->Ok_0.0.shares_backed(),
{
    let plan = spec_validate(vault, position, accounts, shares)->Ok_0;
    lemma_assets_out_bound(shares, vault.total_assets, vault.total_shares);
    let a = vault.total_assets as int;
    let s = vault.total_shares as int;
    let out = plan.assets_out as int;
    let burned = shares as int;
    assert(out <= burned + (a - s)) by (nonlinear_arith)
        requires
            out * s <= burned * a,
            burned <= s,
            s <= a,
            s > 0,
    ;
}

/// Redeeming every share of the vault pays out every asset and leaves the
/// vault empty.
pub proof fn lemma_withdraw_all_empties_vault(vault: Vault, position: Position, accounts: Withdraw)
    requires
        spec_withdraw(vault, position, accounts, vault.total_shares) is Ok,
    ensures
        spec_withdraw(vault, position, accounts, vault.total_shares)->Ok_0.2.assets_out == vault.total_assets,
        spec_withdraw(vault, position, accounts, vault.total_shares)->Ok_0.0.total_assets == 0,
        spec_withdraw(vault, position, accounts, vault.total_shares)->Ok_0.0.total_shares == 0,
{
    let a = vault.total_assets as int;
    let s = vault.total_shares as int;
    lemma_div_multiples_vanish(a, s);
    assert(s * a == a * s) by (nonlinear_arith);
}

/// Checks a withdrawal of `shares` against the vault and the position before
/// any asset moves.
pub fn validate(vault: &Vault, position: &Position, accounts: &Withdraw, shares: u64) -> (r: Result<WithdrawPlan, InstructionError>)
    ensures
        r == spec_validate(*vault, *position, *accounts, shares),
{
    if position.owner != accounts.owner || position.vault != accounts.vault
        || vault.vault_token_account != accounts.vault_token_account {
        return Err(InstructionError::ConstraintRaw);
    }
    if shares == 0 {
        return Err(InstructionError::Vault(VaultError::ZeroAmount));
    }
    if vault.pause_flags & PAUSE_WITHDRAW != 0 {
        return Err(InstructionError::Vault(VaultError::WithdrawalsPaused));
    }
    if position.shares < shares {
        return Err(InstructionError::Vault(VaultError::InsufficientShares));
    }
    match assets_from_shares(shares, vault.total_assets, vault.total_shares) {
        Ok(assets_out) => Ok(WithdrawPlan { shares, assets_out }),
        Err(e) => Err(InstructionError::Vault(e)),
    }
}

/// Debits a planned withdrawal from the vault and the position. On an error
/// neither changes.
pub fn settle(vault: &mut Vault, position: &mut Position, accounts: &Withdraw, plan: &WithdrawPlan) -> (r: Result<WithdrawEvent, VaultError>)
    ensures
        match spec_settle(*old(vault), *old(position), *accounts, *plan) {
            Ok((v, p, e)) => r == Ok::<WithdrawEvent, VaultError>(e) && *final(vault) == v && *final(position) == p,
            Err(err) => r == Err::<WithdrawEvent, VaultError>(err) && *final(vault) == *old(vault) && *final(position) == *old(position),
        },
{
    let position_shares = match position.shares.checked_sub(plan.shares) {
        Some(shares) => shares,
        None => return Err(VaultError::MathOverflow),
    };
    let total_shares = match vault.total_shares.checked_sub(plan.shares) {
        Some(shares) => shares,
        None => return Err(VaultError::MathOverflow),
    };
    let total_assets = match vault.total_assets.checked_sub(plan.assets_out) {
        Some(assets) => assets,
        None => return Err(VaultError::MathOverflow),
    };
    position.shares = position_shares;
    vault.total_shares = total_shares;
    vault.total_assets = total_assets;
    Ok(WithdrawEvent {
        owner: accounts.owner,
        shares_burned: plan.shares,
        assets_out: plan.assets_out,
        total_assets,
        total_shares,
    })
}

/// A whole withdrawal of `shares`: the checks, then the debiting. On an error
/// neither the vault nor the position changes. A successful withdrawal burns
/// `shares` from the position and from the vault, pays out a positive amount
/// no larger than the shares' worth, keeps every share backed by an asset and
/// never lowers the value of a share.
pub fn handle(vault: &mut Vault, position: &mut Position, accounts: &Withdraw, shares: u64) -> (r: Result<WithdrawEvent, InstructionError>)
    ensures
        match spec_withdraw(*old(vault), *old(position), *accounts, shares) {
            Ok((v, p, e)) => r == Ok::<WithdrawEvent, InstructionError>(e) && *final(vault) == v && *final(position) == p,
            Err(err) => r == Err::<WithdrawEvent, InstructionError>(err) && *final(vault) == *old(vault) && *final(position) == *old(position),
        },
        r is Ok ==> {
            &&& final(position).shares == old(position).shares - shares
            &&& final(vault).total_shares == old(vault).total_shares - shares
            &&& final(vault).total_assets == old(vault).total_assets - r->Ok_0.assets_out
            &&& r->Ok_0.assets_out > 0
            &&& (r->Ok_0.assets_out as int) * (old(vault).total_shares as int) <= (shares as int) * (old(vault).total_assets as int)
            &&& !flag_set(old(vault).pause_flags, PAUSE_WITHDRAW)
            &&& final(vault).share_value_at_least(*old(vault))
            &&& old(vault).shares_backed() ==> final(vault).shares_backed()
        },
{
    let plan = match validate(vault, position, accounts, shares) {
        Ok(plan) => plan,
        Err(e) => return Err(e),
    };
    proof {
        if spec_withdraw(*vault, *position, *accounts, shares) is Ok {
            lemma_assets_out_bound(shares, vault.total_assets, vault.total_shares);
            lemma_withdraw_keeps_share_value(*vault, *position, *accounts, shares);
            if vault.shares_backed() {
                lemma_withdraw_keeps_backing(*vault, *position, *accounts, shares);
            }
        }
    }
    match settle(vault, position, accounts, &plan) {
        Ok(event) => Ok(event),
        Err(e) => Err(InstructionError::Vault(e)),
    }
}

} // verus!
