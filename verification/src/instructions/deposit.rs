//! Deposit: the owner adds assets to the vault and is credited shares.
use vstd::prelude::*;
use crate::constants::{flag_set, PAUSE_DEPOSIT};
use crate::errors::{InstructionError, VaultError};
use crate::events::DepositEvent;
use crate::key::Key;
use crate::math::{shares_from_deposit, spec_shares_from_deposit};
use crate::proofs::lemma_minted_shares_bound;
use crate::state::{Position, Vault};

verus! {

/// The accounts of a deposit, by the keys that the rules compare.
#[derive(Clone, Copy, Debug, PartialEq, Eq, Structural)]
pub struct Deposit {
    /// The depositor, who signs.
    pub owner: Key,
    /// The address of the vault account.
    pub vault: Key,
    /// The mint of the depositor's token account.
    pub owner_token_mint: Key,
    /// The token account that is to receive the assets.
    pub vault_token_account: Key,
    /// The bump of the depositor's position address.
    pub position_bump: u8,
}

/// A deposit that passed its checks: the amount to transfer in, the shares it
/// mints and the vault's assets afterwards.
#[derive(Clone, Copy, Debug, PartialEq, Eq, Structural)]
pub struct DepositPlan {
    pub amount: u64,
    pub minted_shares: u64,
    pub new_total_assets: u64,
}

/// The checks made before any asset moves, in the order they are made.
pub open spec fn spec_validate(vault: Vault, accounts: Deposit, amount: u64) -> Result<DepositPlan, InstructionError> {
    if vault.xnt_mint != accounts.owner_token_mint || vault.vault_token_account != accounts.vault_token_account {
        Err(InstructionError::ConstraintRaw)
    } else if amount == 0 {
        Err(InstructionError::Vault(VaultError::ZeroAmount))
    } else if flag_set(vault.pause_flags, PAUSE_DEPOSIT) {
        Err(InstructionError::Vault(VaultError::DepositsPaused))
    } else if amount > vault.max_deposit_per_tx {
        Err(InstructionError::Vault(VaultError::DepositCapExceeded))
    } else if vault.total_assets + amount > u64::MAX {
        Err(InstructionError::Vault(VaultError::MathOverflow))
    } else if vault.total_assets + amount > vault.max_total_assets {
        Err(InstructionError::Vault(VaultError::TotalAssetCapExceeded))
    } else {
        match spec_shares_from_deposit(amount, vault.total_assets, vault.total_shares) {
            Ok(minted) => Ok(
                DepositPlan {
                    amount,
                    minted_shares: minted,
                    new_total_assets: (vault.total_assets + amount) as u64,
                },
            ),
            Err(e) => Err(InstructionError::Vault(e)),
        }
    }
}

/// The position as the depositor owns it: a position never used before is
/// claimed for the depositor and this vault.
pub open spec fn claimed_position(position: Position, accounts: Deposit) -> Position {
    if position.owner == Key::spec_zero() {
        Position { owner: accounts.owner, vault: accounts.vault, bump: accounts.position_bump, ..position }
    } else {
        position
    }
}

/// What a planned deposit does once the assets have arrived: the new vault,
/// the new position and the event, or the error that undoes the deposit.
pub open spec fn spec_settle(vault: Vault, position: Position, accounts: Deposit, plan: DepositPlan) -> Result<(Vault, Position, DepositEvent), VaultError> {
    let claimed = claimed_position(position, accounts);
    if claimed.shares + plan.minted_shares > u64::MAX {
        Err(VaultError::MathOverflow)
    } else if vault.total_shares + plan.minted_shares > u64::MAX {
        Err(VaultError::MathOverflow)
    } else {
        let new_vault = vault.with_totals(plan.new_total_assets, (vault.total_shares + plan.minted_shares) as u64);
        Ok((
            new_vault,
            Position { shares: (claimed.shares + plan.minted_shares) as u64, ..claimed },
            DepositEvent {
                owner: accounts.owner,
                amount: plan.amount,
                minted_shares: plan.minted_shares,
                total_assets: new_vault.total_assets,
                total_shares: new_vault.total_shares,
            },
        ))
    }
}

/// The whole deposit.
pub open spec fn spec_deposit(vault: Vault, position: Position, accounts: Deposit, amount: u64) -> Result<(Vault, Position, DepositEvent), InstructionError> {
    match spec_validate(vault, accounts, amount) {
        Err(e) => Err(e),
        Ok(plan) => match spec_settle(vault, position, accounts, plan) {
            Ok(out) => Ok(out),
            Err(e) => Err(InstructionError::Vault(e)),
        },
    }
}

/// A successful deposit never lowers the value of a share: the shares it
/// mints are worth no more than the assets it adds.
pub proof fn lemma_deposit_keeps_share_value(vault: Vault, position: Position, accounts: Deposit, amount: u64)
    requires
        spec_deposit(vault, position, accounts, amount) is Ok,
    ensures
        spec_deposit(vault, position, accounts, amount)->Ok_0.0.share_value_at_least(vault),
{
    let plan = spec_validate(vault, accounts, amount)->Ok_0;
    lemma_minted_shares_bound(amount, vault.total_assets, vault.total_shares);
    let a = vault.total_assets as int;
    let s = vault.total_shares as int;
    let m = plan.minted_shares as int;
    let amt = amount as int;
    assert(a * (s + m) <= (a + amt) * s) by (nonlinear_arith)
        requires
            m * a <= amt * s,
    ;
}

/// A successful deposit keeps every share backed by an asset.
pub proof fn lemma_deposit_keeps_backing(vault: Vault, position: Position, accounts: Deposit, amount: u64)
    requires
        vault.shares_backed(),
        spec_deposit(vault, position, accounts, amount) is Ok,
    ensures
        spec_deposit(vault, position, accounts, amount)->Ok_0.0.shares_backed(),
{
    let plan = spec_validate(vault, accounts, amount)->Ok_0;
    lemma_minted_shares_bound(amount, vault.total_assets, vault.total_shares);
    let a = vault.total_assets as int;
    let s = vault.total_shares as int;
    let m = plan.minted_shares as int;
    let amt = amount as int;
    if a > 0 {
        assert(m <= amt) by (nonlinear_arith)
            requires
                m * a <= amt * s,
                s <= a,
                a > 0,
                amt >= 0,
        ;
    }
}

/// Checks a deposit of `amount` against the vault before any asset moves.
pub fn validate(vault: &Vault, accounts: &Deposit, amount: u64) -> (r: Result<DepositPlan, InstructionError>)
    ensures
        r == spec_validate(*vault, *accounts, amount),
{
    if vault.xnt_mint != accounts.owner_token_mint || vault.vault_token_account != accounts.vault_token_account {
        return Err(InstructionError::ConstraintRaw);
    }
    if amount == 0 {
        return Err(InstructionError::Vault(VaultError::ZeroAmount));
    }
    if vault.pause_flags & PAUSE_DEPOSIT != 0 {
        return Err(InstructionError::Vault(VaultError::DepositsPaused));
    }
    if amount > vault.max_deposit_per_tx {
        return Err(InstructionError::Vault(VaultError::DepositCapExceeded));
    }
    let new_total_assets = match vault.total_assets.checked_add(amount) {
        Some(total) => total,
        None => return Err(InstructionError::Vault(VaultError::MathOverflow)),
    };
    if new_total_assets > vault.max_total_assets {
        return Err(InstructionError::Vault(VaultError::TotalAssetCapExceeded));
    }
    match shares_from_deposit(amount, vault.total_assets, vault.total_shares) {
        Ok(minted_shares) => Ok(DepositPlan { amount, minted_shares, new_total_assets }),
        Err(e) => Err(InstructionError::Vault(e)),
    }
}

/// Credits a planned deposit to the vault and the position. On an error
/// neither changes.
pub fn settle(vault: &mut Vault, position: &mut Position, accounts: &Deposit, plan: &DepositPlan) -> (r: Result<DepositEvent, VaultError>)
    ensures
        match spec_settle(*old(vault), *old(position), *accounts, *plan) {
            Ok((v, p, e)) => r == Ok::<DepositEvent, VaultError>(e) && *final(vault) == v && *final(position) == p,
            Err(err) => r == Err::<DepositEvent, VaultError>(err) && *final(vault) == *old(vault) && *final(position) == *old(position),
        },
{
    let mut claimed = *position;
    if claimed.owner.is_zero() {
        claimed.owner = accounts.owner;
        claimed.vault = accounts.vault;
        claimed.bump = accounts.position_bump;
    }
    let position_shares = match claimed.shares.checked_add(plan.minted_shares) {
        Some(shares) => shares,
        None => return Err(VaultError::MathOverflow),
    };
    let total_shares = match vault.total_shares.checked_add(plan.minted_shares) {
        Some(shares) => shares,
        None => return Err(VaultError::MathOverflow),
    };
    claimed.shares = position_shares;
    *position = claimed;
    vault.total_assets = plan.new_total_assets;
    vault.total_shares = total_shares;
    Ok(DepositEvent {
        owner: accounts.owner,
        amount: plan.amount,
        minted_shares: plan.minted_shares,
        total_assets: vault.total_assets,
        total_shares: vault.total_shares,
    })
}

/// A whole deposit of `amount`: the checks, then the crediting. On an error
/// neither the vault nor the position changes. A successful deposit raises
/// the vault's assets by `amount` and its shares and the position's shares by
/// the same minted count, stays within the caps, keeps every share backed by
/// an asset and never lowers the value of a share.
pub fn handle(vault: &mut Vault, position: &mut Position, accounts: &Deposit, amount: u64) -> (r: Result<DepositEvent, InstructionError>)
    ensures
        match spec_deposit(*old(vault), *old(position), *accounts, amount) {
            Ok((v, p, e)) => r == Ok::<DepositEvent, InstructionError>(e) && *final(vault) == v && *final(position) == p,
            Err(err) => r == Err::<DepositEvent, InstructionError>(err) && *final(vault) == *old(vault) && *final(position) == *old(position),
        },
        r is Ok ==> {
            &&& final(vault).total_assets == old(vault).total_assets + amount
            &&& final(vault).total_shares - old(vault).total_shares == final(position).shares - old(position).shares
            &&& final(vault).total_shares - old(vault).total_shares == r->Ok_0.minted_shares
            &&& r->Ok_0.minted_shares > 0
            &&& amount <= old(vault).max_deposit_per_tx
            &&& final(vault).total_assets <= final(vault).max_total_assets
            &&& !flag_set(old(vault).pause_flags, PAUSE_DEPOSIT)
            &&& final(vault).share_value_at_least(*old(vault))
            &&& old(vault).shares_backed() ==> final(vault).shares_backed()
        },
{
    let plan = match validate(vault, accounts, amount) {
        Ok(plan) => plan,
        Err(e) => return Err(e),
    };
    proof {
        if spec_deposit(*vault, *position, *accounts, amount) is Ok {
            lemma_minted_shares_bound(amount, vault.total_assets, vault.total_shares);
            lemma_deposit_keeps_share_value(*vault, *position, *accounts, amount);
            if vault.shares_backed() {
                lemma_deposit_keeps_backing(*vault, *position, *accounts, amount);
            }
        }
    }
    match settle(vault, position, accounts, &plan) {
        Ok(event) => Ok(event),
        Err(e) => Err(InstructionError::Vault(e)),
    }
}

} // verus!
