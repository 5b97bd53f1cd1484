//! Properties that span instructions.
use vstd::prelude::*;
use crate::constants::{flag_set, PAUSE_COMPOUND, PAUSE_DEPOSIT, PAUSE_WITHDRAW};
use crate::errors::{InstructionError, VaultError};
use crate::instructions::compound::{spec_compound, Compound};
use crate::instructions::deposit::{spec_deposit, Deposit};
use crate::instructions::withdraw::{spec_withdraw, spec_validate as spec_validate_withdraw, Withdraw};
use crate::math::{mul_div, spec_assets_from_shares, spec_shares_from_deposit};
use crate::proofs::{lemma_assets_out_bound, lemma_minted_shares_bound};
use vstd::arithmetic::div_mod::{lemma_div_is_ordered, lemma_div_multiples_vanish, lemma_div_pos_is_pos};
use vstd::arithmetic::mul::lemma_mul_inequality;
use crate::state::{Position, Vault};

verus! {

/// Depositing and at once redeeming the shares the deposit minted never pays
/// out more than was deposited: rounding always favours the vault.
pub proof fn lemma_deposit_then_withdraw_no_gain(
    vault: Vault,
    position: Position,
    deposit: Deposit,
    withdraw: Withdraw,
    amount: u64,
)
    requires
        spec_deposit(vault, position, deposit, amount) is Ok,
        spec_withdraw(
            spec_deposit(vault, position, deposit, amount)->Ok_0.0,
            spec_deposit(vault, position, deposit, amount)->Ok_0.1,
            withdraw,
            spec_deposit(vault, position, deposit, amount)->Ok_0.2.minted_shares,
        ) is Ok,
    ensures
        spec_withdraw(
            spec_deposit(vault, position, deposit, amount)->Ok_0.0,
            spec_deposit(vault, position, deposit, amount)->Ok_0.1,
            withdraw,
            spec_deposit(vault, position, deposit, amount)->Ok_0.2.minted_shares,
        )->Ok_0.2.assets_out <= amount,
{
    let (v1, p1, ev) = spec_deposit(vault, position, deposit, amount)->Ok_0;
    let minted = ev.minted_shares;
    lemma_minted_shares_bound(amount, vault.total_assets, vault.total_shares);
    lemma_assets_out_bound(minted, v1.total_assets, v1.total_shares);
    let out = spec_validate_withdraw(v1, p1, withdraw, minted)->Ok_0.assets_out as int;
    let a = vault.total_assets as int;
    let s = vault.total_shares as int;
    let m = minted as int;
    let amt = amount as int;
    assert(out <= amt) by (nonlinear_arith)
        requires
            out * (s + m) <= m * (a + amt),
            m * a <= amt * s,
            s + m > 0,
            amt >= 0,
    ;
}

/// The first deposit into an empty vault mints exactly one share per asset.
pub proof fn lemma_first_deposit_one_to_one(vault: Vault, position: Position, deposit: Deposit, amount: u64)
    requires
        vault.total_assets == 0,
        vault.total_shares == 0,
        spec_deposit(vault, position, deposit, amount) is Ok,
    ensures
        spec_deposit(vault, position, deposit, amount)->Ok_0.2.minted_shares == amount,
        spec_deposit(vault, position, deposit, amount)->Ok_0.0.total_shares == amount,
        spec_deposit(vault, position, deposit, amount)->Ok_0.0.total_assets == amount,
{
}

/// While deposits are paused no deposit succeeds.
pub proof fn lemma_paused_deposit_refused(vault: Vault, position: Position, deposit: Deposit, amount: u64)
    requires
        flag_set(vault.pause_flags, PAUSE_DEPOSIT),
    ensures
        spec_deposit(vault, position, deposit, amount) is Err,
{
}

/// While withdrawals are paused no withdrawal succeeds.
pub proof fn lemma_paused_withdraw_refused(vault: Vault, position: Position, withdraw: Withdraw, shares: u64)
    requires
        flag_set(vault.pause_flags, PAUSE_WITHDRAW),
    ensures
        spec_withdraw(vault, position, withdraw, shares) is Err,
{
}

/// While compounding is paused no compound succeeds.
pub proof fn lemma_paused_compound_refused(vault: Vault, compound: Compound, amount: u64)
    requires
        flag_set(vault.pause_flags, PAUSE_COMPOUND),
    ensures
        spec_compound(vault, compound, amount) is Err,
{
}

/// Nobody but the recorded strategist can compound.
pub proof fn lemma_compound_needs_strategist(vault: Vault, compound: Compound, amount: u64)
    requires
        vault.strategist != compound.strategist,
    ensures
        spec_compound(vault, compound, amount) == Err::<(Vault, crate::events::CompoundEvent), InstructionError>(
            InstructionError::Vault(VaultError::Unauthorized),
        ),
{
}

/// Nobody but a position's owner can withdraw from it.
pub proof fn lemma_withdraw_needs_owner(vault: Vault, position: Position, withdraw: Withdraw, shares: u64)
    requires
        position.owner != withdraw.owner,
    ensures
        spec_withdraw(vault, position, withdraw, shares) == Err::<(Vault, Position, crate::events::WithdrawEvent), InstructionError>(
            InstructionError::ConstraintRaw,
        ),
{
}

/// `floor(a * b / c)` with `b <= c` is at most `a`.
proof fn lemma_mul_div_at_most(a: u64, b: u64, c: u64)
    requires
        0 < c,
        b <= c,
    ensures
        0 <= mul_div(a, b, c) <= a,
{
    let x = (a as int) * (b as int);
    let y = (a as int) * (c as int);
    lemma_mul_inequality(b as int, c as int, a as int);
    assert(x <= y) by (nonlinear_arith)
        requires
            (b as int) * (a as int) <= (c as int) * (a as int),
            x == (a as int) * (b as int),
            y == (a as int) * (c as int),
    ;
    assert(x >= 0) by (nonlinear_arith)
        requires
            x == (a as int) * (b as int),
            a >= 0,
            b >= 0,
    ;
    lemma_div_is_ordered(x, y, c as int);
    lemma_div_multiples_vanish(a as int, c as int);
    assert((c as int) * (a as int) == y) by (nonlinear_arith)
        requires
            y == (a as int) * (c as int),
    ;
    lemma_div_pos_is_pos(x, c as int);
}

/// `floor(a * b / c)` does not fall when `a` or `b` grows.
proof fn lemma_mul_div_monotone(a1: u64, a2: u64, b1: u64, b2: u64, c: u64)
    requires
        0 < c,
        a1 <= a2,
        b1 <= b2,
    ensures
        mul_div(a1, b1, c) <= mul_div(a2, b2, c),
{
    let x1 = (a1 as int) * (b1 as int);
    let x2 = (a2 as int) * (b2 as int);
    assert(x1 <= x2) by (nonlinear_arith)
        requires
            x1 == (a1 as int) * (b1 as int),
            x2 == (a2 as int) * (b2 as int),
            0 <= a1 <= a2,
            0 <= b1 <= b2,
    ;
    lemma_div_is_ordered(x1, x2, c as int);
}

/// In a vault whose shares are all backed, the share count a deposit mints
/// is at most `amount`, so the deposit never fails on overflow.
pub proof fn lemma_backed_deposit_never_overflows(amount: u64, total_assets: u64, total_shares: u64)
    requires
        total_shares <= total_assets,
    ensures
        total_assets > 0 ==> mul_div(amount, total_shares, total_assets) <= amount,
        spec_shares_from_deposit(amount, total_assets, total_shares) != Err::<u64, VaultError>(VaultError::MathOverflow),
{
    if total_assets > 0 {
        lemma_mul_div_at_most(amount, total_shares, total_assets);
    }
}

/// Redeeming at most all of a vault's shares pays out at most all of its
/// assets, so the redemption never fails on overflow.
pub proof fn lemma_redeem_never_overflows(shares: u64, total_assets: u64, total_shares: u64)
    requires
        shares <= total_shares,
    ensures
        total_shares > 0 ==> mul_div(shares, total_assets, total_shares) <= total_assets,
        spec_assets_from_shares(shares, total_assets, total_shares) != Err::<u64, VaultError>(VaultError::MathOverflow),
{
    if total_shares > 0 {
        lemma_mul_div_at_most(total_assets, shares, total_shares);
        assert((shares as int) * (total_assets as int) == (total_assets as int) * (shares as int)) by (nonlinear_arith);
    }
}

/// A larger deposit into the same vault never mints fewer shares.
pub proof fn lemma_larger_deposit_mints_no_fewer_shares(a1: u64, a2: u64, total_assets: u64, total_shares: u64)
    requires
        a1 <= a2,
        spec_shares_from_deposit(a1, total_assets, total_shares) is Ok,
        spec_shares_from_deposit(a2, total_assets, total_shares) is Ok,
    ensures
        spec_shares_from_deposit(a1, total_assets, total_shares)->Ok_0
            <= spec_shares_from_deposit(a2, total_assets, total_shares)->Ok_0,
{
    if total_assets > 0 {
        lemma_mul_div_monotone(a1, a2, total_shares, total_shares, total_assets);
    }
}

/// Redeeming more shares, or redeeming from a vault with more assets for the
/// same share supply, never pays out less.
pub proof fn lemma_redeem_monotone(sh1: u64, sh2: u64, ta1: u64, ta2: u64, total_shares: u64)
    requires
        sh1 <= sh2,
        ta1 <= ta2,
        spec_assets_from_shares(sh1, ta1, total_shares) is Ok,
        spec_assets_from_shares(sh2, ta2, total_shares) is Ok,
    ensures
        spec_assets_from_shares(sh1, ta1, total_shares)->Ok_0 <= spec_assets_from_shares(sh2, ta2, total_shares)->Ok_0,
{
    lemma_mul_div_monotone(sh1, sh2, ta1, ta2, total_shares);
}

} // verus!
