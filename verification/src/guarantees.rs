//! What each operation guarantees, stated directly over its inputs and
//! results: the share formulas, which caps and flags can refuse what, and
//! when an instruction must succeed.
use vstd::prelude::*;
use vstd::arithmetic::div_mod::{lemma_div_pos_is_pos, lemma_fundamental_div_mod, lemma_mod_pos_bound};
use crate::constants::{PAUSE_COMPOUND, PAUSE_DEPOSIT, PAUSE_WITHDRAW};
use crate::errors::{InstructionError, VaultError};
use crate::instructions::compound::{spec_compound, spec_validate as spec_validate_compound, Compound};
use crate::instructions::deposit::{spec_deposit, spec_validate as spec_validate_deposit, Deposit};
use crate::instructions::withdraw::{spec_validate as spec_validate_withdraw, spec_withdraw, Withdraw};
use crate::math::{spec_assets_from_shares, spec_shares_from_deposit};
use crate::key::Key;
use crate::state::{Position, Vault};

verus! {

/// `x / d` for `d > 0`, `x >= 0` is the `q` with `q * d <= x < (q + 1) * d`.
proof fn lemma_floor_div(x: int, d: int)
    requires
        x >= 0,
        d > 0,
    ensures
        x / d >= 0,
        (x / d) * d <= x,
        x < (x / d + 1) * d,
{
    lemma_fundamental_div_mod(x, d);
    lemma_mod_pos_bound(x, d);
    lemma_div_pos_is_pos(x, d);
    let q = x / d;
    assert(q * d <= x && x < (q + 1) * d) by (nonlinear_arith)
        requires
            x == d * q + x % d,
            0 <= x % d < d,
    ;
}

/// A deposit into a vault holding `total_assets` against `total_shares`:
/// - nothing is minted for nothing;
/// - an empty vault mints one share per asset;
/// - a vault with only one of assets or shares is refused;
/// - otherwise the share count is `amount * total_shares / total_assets`
///   rounded down, whatever the size of the product: a count from 1 to
///   `u64::MAX` is returned exactly, a larger one is an overflow and zero is
///   refused.
pub proof fn law_shares_from_deposit(amount: u64, total_assets: u64, total_shares: u64)
    ensures
        amount == 0 ==> spec_shares_from_deposit(amount, total_assets, total_shares)
            == Err::<u64, VaultError>(VaultError::ZeroAmount),
        amount > 0 && total_assets == 0 && total_shares == 0
            ==> spec_shares_from_deposit(amount, total_assets, total_shares) == Ok::<u64, VaultError>(amount),
        amount > 0 && (total_assets == 0) != (total_shares == 0)
            ==> spec_shares_from_deposit(amount, total_assets, total_shares)
            == Err::<u64, VaultError>(VaultError::InvalidShareState),
        amount > 0 && total_assets > 0 && total_shares > 0 ==> {
            let q = (amount as int) * (total_shares as int) / (total_assets as int);
            &&& 1 <= q <= u64::MAX ==> spec_shares_from_deposit(amount, total_assets, total_shares)
                == Ok::<u64, VaultError>(q as u64)
            &&& q > u64::MAX ==> spec_shares_from_deposit(amount, total_assets, total_shares)
                == Err::<u64, VaultError>(VaultError::MathOverflow)
            &&& q == 0 ==> spec_shares_from_deposit(amount, total_assets, total_shares)
                == Err::<u64, VaultError>(VaultError::InvalidShareState)
        },
{
}

/// Shares minted by a deposit into a vault with assets are the largest count
/// whose worth does not exceed the deposit:
/// `minted * total_assets <= amount * total_shares < (minted + 1) * total_assets`.
pub proof fn law_minted_shares_are_floor(amount: u64, total_assets: u64, total_shares: u64)
    requires
        total_assets > 0,
        spec_shares_from_deposit(amount, total_assets, total_shares) is Ok,
    ensures
        ({
            let m = spec_shares_from_deposit(amount, total_assets, total_shares)->Ok_0 as int;
            &&& m * (total_assets as int) <= (amount as int) * (total_shares as int)
            &&& (amount as int) * (total_shares as int) < (m + 1) * (total_assets as int)
            &&& m >= 1
        }),
{
    let x = (amount as int) * (total_shares as int);
    assert(x >= 0) by (nonlinear_arith)
        requires
            x == (amount as int) * (total_shares as int),
            amount >= 0,
            total_shares >= 0,
    ;
    lemma_floor_div(x, total_assets as int);
}

/// A redemption of `shares` from a vault holding `total_assets` against
/// `total_shares`: nothing is paid for nothing; a vault without assets or
/// shares is refused; otherwise the payout is `shares * total_assets /
/// total_shares` rounded down, whatever the size of the product: a payout
/// from 1 to `u64::MAX` is returned exactly, a larger one is an overflow and
/// zero is refused.
pub proof fn law_assets_from_shares(shares: u64, total_assets: u64, total_shares: u64)
    ensures
        shares == 0 ==> spec_assets_from_shares(shares, total_assets, total_shares)
            == Err::<u64, VaultError>(VaultError::ZeroAmount),
        shares > 0 && (total_assets == 0 || total_shares == 0)
            ==> spec_assets_from_shares(shares, total_assets, total_shares)
            == Err::<u64, VaultError>(VaultError::InvalidShareState),
        shares > 0 && total_assets > 0 && total_shares > 0 ==> {
            let q = (shares as int) * (total_assets as int) / (total_shares as int);
            &&& 1 <= q <= u64::MAX ==> spec_assets_from_shares(shares, total_assets, total_shares)
                == Ok::<u64, VaultError>(q as u64)
            &&& q > u64::MAX ==> spec_assets_from_shares(shares, total_assets, total_shares)
                == Err::<u64, VaultError>(VaultError::MathOverflow)
            &&& q == 0 ==> spec_assets_from_shares(shares, total_assets, total_shares)
                == Err::<u64, VaultError>(VaultError::InvalidShareState)
        },
{
}

/// Assets paid for a redemption are the largest amount whose worth does not
/// exceed the shares redeemed:
/// `out * total_shares <= shares * total_assets < (out + 1) * total_shares`.
pub proof fn law_assets_out_are_floor(shares: u64, total_assets: u64, total_shares: u64)
    requires
        spec_assets_from_shares(shares, total_assets, total_shares) is Ok,
    ensures
        ({
            let out = spec_assets_from_shares(shares, total_assets, total_shares)->Ok_0 as int;
            &&& out * (total_shares as int) <= (shares as int) * (total_assets as int)
            &&& (shares as int) * (total_assets as int) < (out + 1) * (total_shares as int)
            &&& out >= 1
        }),
{
    let x = (shares as int) * (total_assets as int);
    assert(x >= 0) by (nonlinear_arith)
        requires
            x == (shares as int) * (total_assets as int),
            shares >= 0,
            total_assets >= 0,
    ;
    lemma_floor_div(x, total_shares as int);
}

/// The deposit checks refuse for a cap or an overflow only when that cap or
/// the `u64` range is actually exceeded, and for a pause only when the
/// deposit bit is set:
/// - `DepositCapExceeded` only when `amount > max_deposit_per_tx`;
/// - `TotalAssetCapExceeded` only when `total_assets + amount > max_total_assets`;
/// - `DepositsPaused` only when the deposit pause bit is set.
pub proof fn law_deposit_refusals_have_cause(vault: Vault, accounts: Deposit, amount: u64)
    ensures
        spec_validate_deposit(vault, accounts, amount) == Err::<crate::instructions::deposit::DepositPlan, InstructionError>(
            InstructionError::Vault(VaultError::DepositCapExceeded),
        ) ==> amount > vault.max_deposit_per_tx,
        spec_validate_deposit(vault, accounts, amount) == Err::<crate::instructions::deposit::DepositPlan, InstructionError>(
            InstructionError::Vault(VaultError::TotalAssetCapExceeded),
        ) ==> vault.total_assets + amount > vault.max_total_assets,
        spec_validate_deposit(vault, accounts, amount) == Err::<crate::instructions::deposit::DepositPlan, InstructionError>(
            InstructionError::Vault(VaultError::DepositsPaused),
        ) ==> vault.pause_flags & PAUSE_DEPOSIT != 0,
        spec_validate_deposit(vault, accounts, amount) == Err::<crate::instructions::deposit::DepositPlan, InstructionError>(
            InstructionError::ConstraintRaw,
        ) ==> vault.xnt_mint != accounts.owner_token_mint || vault.vault_token_account != accounts.vault_token_account,
{
}

/// A deposit with matching accounts, a positive amount, deposits not paused,
/// the amount within the per-transaction cap and the new total within the
/// total cap is accepted whenever the share count is positive and fits: it
/// transfers `amount`, mints `amount` shares into an empty vault and
/// `amount * total_shares / total_assets` (rounded down) otherwise, and
/// brings the vault's assets to `total_assets + amount`.
pub proof fn law_deposit_accepted(vault: Vault, accounts: Deposit, amount: u64)
    requires
        vault.xnt_mint == accounts.owner_token_mint,
        vault.vault_token_account == accounts.vault_token_account,
        amount > 0,
        vault.pause_flags & PAUSE_DEPOSIT == 0,
        amount <= vault.max_deposit_per_tx,
        vault.total_assets + amount <= vault.max_total_assets,
        (vault.total_assets == 0 && vault.total_shares == 0) || (vault.total_assets > 0 && vault.total_shares > 0
            && 1 <= (amount as int) * (vault.total_shares as int) / (vault.total_assets as int) <= u64::MAX),
    ensures
        spec_validate_deposit(vault, accounts, amount) is Ok,
        spec_validate_deposit(vault, accounts, amount)->Ok_0.amount == amount,
        spec_validate_deposit(vault, accounts, amount)->Ok_0.new_total_assets == vault.total_assets + amount,
        spec_validate_deposit(vault, accounts, amount)->Ok_0.minted_shares == (if vault.total_assets == 0 {
            amount as int
        } else {
            (amount as int) * (vault.total_shares as int) / (vault.total_assets as int)
        }),
{
}

/// Whether a deposit succeeds, and what it does, depends on the pause flags
/// only through the deposit bit.
pub proof fn law_deposit_ignores_other_pause_bits(vault: Vault, position: Position, accounts: Deposit, amount: u64, flags: u8)
    requires
        (flags & PAUSE_DEPOSIT == 0) == (vault.pause_flags & PAUSE_DEPOSIT == 0),
    ensures
        spec_validate_deposit(Vault { pause_flags: flags, ..vault }, accounts, amount)
            == spec_validate_deposit(vault, accounts, amount),
        spec_deposit(Vault { pause_flags: flags, ..vault }, position, accounts, amount) is Ok
            == spec_deposit(vault, position, accounts, amount) is Ok,
{
}

/// The withdrawal checks refuse for a pause only when the withdraw bit is
/// set, and for missing shares only when the position holds fewer than asked.
pub proof fn law_withdraw_refusals_have_cause(vault: Vault, position: Position, accounts: Withdraw, shares: u64)
    ensures
        spec_validate_withdraw(vault, position, accounts, shares) == Err::<crate::instructions::withdraw::WithdrawPlan, InstructionError>(
            InstructionError::Vault(VaultError::WithdrawalsPaused),
        ) ==> vault.pause_flags & PAUSE_WITHDRAW != 0,
        spec_validate_withdraw(vault, position, accounts, shares) == Err::<crate::instructions::withdraw::WithdrawPlan, InstructionError>(
            InstructionError::Vault(VaultError::InsufficientShares),
        ) ==> position.shares < shares,
        spec_validate_withdraw(vault, position, accounts, shares) == Err::<crate::instructions::withdraw::WithdrawPlan, InstructionError>(
            InstructionError::ConstraintRaw,
        ) ==> position.owner != accounts.owner || position.vault != accounts.vault
            || vault.vault_token_account != accounts.vault_token_account,
{
}

/// Whether a withdrawal succeeds, and what it pays, depends on the pause
/// flags only through the withdraw bit.
pub proof fn law_withdraw_ignores_other_pause_bits(vault: Vault, position: Position, accounts: Withdraw, shares: u64, flags: u8)
    requires
        (flags & PAUSE_WITHDRAW == 0) == (vault.pause_flags & PAUSE_WITHDRAW == 0),
    ensures
        spec_validate_withdraw(Vault { pause_flags: flags, ..vault }, position, accounts, shares)
            == spec_validate_withdraw(vault, position, accounts, shares),
        spec_withdraw(Vault { pause_flags: flags, ..vault }, position, accounts, shares) is Ok
            == spec_withdraw(vault, position, accounts, shares) is Ok,
{
}

/// A withdrawal by the position's owner with matching accounts, a positive
/// share count the position holds, withdrawals not paused and a vault with
/// assets and shares is accepted whenever the payout is positive and fits: it
/// pays `shares * total_assets / total_shares` (rounded down), and when the
/// vault holds at least the shares and assets involved it burns `shares` from
/// the position and the vault and takes the payout from the vault's assets.
pub proof fn law_withdraw_accepted(vault: Vault, position: Position, accounts: Withdraw, shares: u64)
    requires
        position.owner == accounts.owner,
        position.vault == accounts.vault,
        vault.vault_token_account == accounts.vault_token_account,
        shares > 0,
        vault.pause_flags & PAUSE_WITHDRAW == 0,
        shares <= position.shares,
        vault.total_assets > 0,
        vault.total_shares > 0,
        1 <= (shares as int) * (vault.total_assets as int) / (vault.total_shares as int) <= u64::MAX,
    ensures
        spec_validate_withdraw(vault, position, accounts, shares) is Ok,
        spec_validate_withdraw(vault, position, accounts, shares)->Ok_0.shares == shares,
        spec_validate_withdraw(vault, position, accounts, shares)->Ok_0.assets_out
            == (shares as int) * (vault.total_assets as int) / (vault.total_shares as int),
        shares <= vault.total_shares && (shares as int) * (vault.total_assets as int) / (vault.total_shares as int)
            <= vault.total_assets ==> {
            &&& spec_withdraw(vault, position, accounts, shares) is Ok
            &&& spec_withdraw(vault, position, accounts, shares)->Ok_0.1.shares == position.shares - shares
            &&& spec_withdraw(vault, position, accounts, shares)->Ok_0.0.total_shares == vault.total_shares - shares
            &&& spec_withdraw(vault, position, accounts, shares)->Ok_0.0.total_assets == vault.total_assets
                - (shares as int) * (vault.total_assets as int) / (vault.total_shares as int)
        },
{
}

/// The compound checks refuse for a cap only when that cap is actually
/// exceeded, and for a pause only when the compound bit is set:
/// - `CompoundCapExceeded` only when `amount > max_compound_per_tx`;
/// - `TotalAssetCapExceeded` only when `total_assets + amount > max_total_assets`;
/// - `CompoundPaused` only when the compound pause bit is set;
/// - `Unauthorized` only when the caller is not the strategist.
pub proof fn law_compound_refusals_have_cause(vault: Vault, accounts: Compound, amount: u64)
    ensures
        spec_validate_compound(vault, accounts, amount) == Err::<crate::instructions::compound::CompoundPlan, InstructionError>(
            InstructionError::Vault(VaultError::CompoundCapExceeded),
        ) ==> amount > vault.max_compound_per_tx,
        spec_validate_compound(vault, accounts, amount) == Err::<crate::instructions::compound::CompoundPlan, InstructionError>(
            InstructionError::Vault(VaultError::TotalAssetCapExceeded),
        ) ==> vault.total_assets + amount > vault.max_total_assets,
        spec_validate_compound(vault, accounts, amount) == Err::<crate::instructions::compound::CompoundPlan, InstructionError>(
            InstructionError::Vault(VaultError::CompoundPaused),
        ) ==> vault.pause_flags & PAUSE_COMPOUND != 0,
        spec_validate_compound(vault, accounts, amount) == Err::<crate::instructions::compound::CompoundPlan, InstructionError>(
            InstructionError::Vault(VaultError::Unauthorized),
        ) ==> vault.strategist != accounts.strategist,
{
}

/// A compound by the strategist with matching accounts, a positive amount,
/// compounding not paused, the amount within the per-compound cap and the new
/// total within the total cap is accepted: it adds `amount` to the vault's
/// assets and leaves its shares as they were.
pub proof fn law_compound_accepted(vault: Vault, accounts: Compound, amount: u64)
    requires
        vault.strategist == accounts.strategist,
        vault.vault_token_account == accounts.vault_token_account,
        accounts.strategist_reward_mint == vault.xnt_mint,
        amount > 0,
        vault.pause_flags & PAUSE_COMPOUND == 0,
        amount <= vault.max_compound_per_tx,
        vault.total_assets + amount <= vault.max_total_assets,
    ensures
        spec_compound(vault, accounts, amount) is Ok,
        spec_compound(vault, accounts, amount)->Ok_0.0.total_assets == vault.total_assets + amount,
        spec_compound(vault, accounts, amount)->Ok_0.0.total_shares == vault.total_shares,
        spec_compound(vault, accounts, amount)->Ok_0.1.amount == amount,
{
}

/// Whether a compound succeeds depends on the pause flags only through the
/// compound bit.
pub proof fn law_compound_ignores_other_pause_bits(vault: Vault, accounts: Compound, amount: u64, flags: u8)
    requires
        (flags & PAUSE_COMPOUND == 0) == (vault.pause_flags & PAUSE_COMPOUND == 0),
    ensures
        spec_validate_compound(Vault { pause_flags: flags, ..vault }, accounts, amount)
            == spec_validate_compound(vault, accounts, amount),
{
}

/// What a successful deposit does: the vault's assets grow by `amount` and
/// its shares by the minted count and nothing else about it changes; the
/// position gains the same count, and a position never used before is
/// claimed for the depositor and this vault while a used one keeps its owner;
/// the event reports the depositor, the amount, the count and the new totals.
pub proof fn law_deposit_outcome(vault: Vault, position: Position, accounts: Deposit, amount: u64)
    requires
        spec_deposit(vault, position, accounts, amount) is Ok,
    ensures
        ({
            let (v, p, e) = spec_deposit(vault, position, accounts, amount)->Ok_0;
            &&& v == Vault {
                total_assets: (vault.total_assets + amount) as u64,
                total_shares: (vault.total_shares + e.minted_shares) as u64,
                ..vault
            }
            &&& vault.total_assets + amount <= u64::MAX
            &&& vault.total_shares + e.minted_shares <= u64::MAX
            &&& p.shares == position.shares + e.minted_shares
            &&& position.owner == Key::spec_zero() ==> p.owner == accounts.owner && p.vault == accounts.vault
                && p.bump == accounts.position_bump
            &&& position.owner != Key::spec_zero() ==> p.owner == position.owner && p.vault == position.vault
                && p.bump == position.bump
            &&& e.owner == accounts.owner
            &&& e.amount == amount
            &&& e.total_assets == v.total_assets
            &&& e.total_shares == v.total_shares
        }),
{
}

/// A deposit that passes its checks is refused afterwards only when the
/// position's shares or the vault's shares would overflow.
pub proof fn law_deposit_settles(vault: Vault, position: Position, accounts: Deposit, amount: u64)
    requires
        spec_validate_deposit(vault, accounts, amount) is Ok,
        position.shares + spec_validate_deposit(vault, accounts, amount)->Ok_0.minted_shares <= u64::MAX,
        vault.total_shares + spec_validate_deposit(vault, accounts, amount)->Ok_0.minted_shares <= u64::MAX,
    ensures
        spec_deposit(vault, position, accounts, amount) is Ok,
{
}

/// What a successful withdrawal does: the vault loses the payout from its
/// assets and `shares` from its shares and nothing else about it changes; the
/// position loses `shares` and nothing else; the event reports the owner, the
/// shares, the payout and the new totals.
pub proof fn law_withdraw_outcome(vault: Vault, position: Position, accounts: Withdraw, shares: u64)
    requires
        spec_withdraw(vault, position, accounts, shares) is Ok,
    ensures
        ({
            let (v, p, e) = spec_withdraw(vault, position, accounts, shares)->Ok_0;
            &&& v == Vault {
                total_assets: (vault.total_assets - e.assets_out) as u64,
                total_shares: (vault.total_shares - shares) as u64,
                ..vault
            }
            &&& e.assets_out <= vault.total_assets
            &&& shares <= vault.total_shares
            &&& p == Position { shares: (position.shares - shares) as u64, ..position }
            &&& shares <= position.shares
            &&& e.owner == accounts.owner
            &&& e.shares_burned == shares
            &&& e.total_assets == v.total_assets
            &&& e.total_shares == v.total_shares
        }),
{
}

/// A withdrawal that passes its checks is refused afterwards only when the
/// vault holds fewer shares than burned or fewer assets than paid.
pub proof fn law_withdraw_settles(vault: Vault, position: Position, accounts: Withdraw, shares: u64)
    requires
        spec_validate_withdraw(vault, position, accounts, shares) is Ok,
        shares <= vault.total_shares,
        spec_validate_withdraw(vault, position, accounts, shares)->Ok_0.assets_out <= vault.total_assets,
    ensures
        spec_withdraw(vault, position, accounts, shares) is Ok,
{
}

/// What a successful compound does: the vault's assets grow by `amount` and
/// nothing else about it changes; the event reports the strategist, the
/// amount and the new totals.
pub proof fn law_compound_outcome(vault: Vault, accounts: Compound, amount: u64)
    requires
        spec_compound(vault, accounts, amount) is Ok,
    ensures
        ({
            let (v, e) = spec_compound(vault, accounts, amount)->Ok_0;
            &&& v == Vault { total_assets: (vault.total_assets + amount) as u64, ..vault }
            &&& vault.total_assets + amount <= vault.max_total_assets
            &&& e.strategist == accounts.strategist
            &&& e.amount == amount
            &&& e.total_assets == v.total_assets
            &&& e.total_shares == vault.total_shares
        }),
{
}

} // verus!
