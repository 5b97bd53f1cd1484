//! Share math: how many shares a deposit mints and how many assets shares redeem.
use vstd::prelude::*;
use crate::errors::VaultError;

verus! {

/// `floor(a * b / c)` over the integers.
pub open spec fn mul_div(a: u64, b: u64, c: u64) -> int {
    (a as int) * (b as int) / (c as int)
}

/// Shares minted for depositing `amount` into a vault that holds
/// `total_assets` against `total_shares`.
///
/// The first deposit (empty vault) mints one share per asset; later deposits
/// mint `amount * total_shares / total_assets`, rounded down. A vault with
/// assets but no shares, or shares but no assets, takes no deposits; a share
/// count that does not fit in a `u64` is an overflow, and a deposit too small
/// to mint a share is refused.
pub open spec fn spec_shares_from_deposit(amount: u64, total_assets: u64, total_shares: u64) -> Result<u64, VaultError> {
    if amount == 0 {
        Err(VaultError::ZeroAmount)
    } else if total_assets == 0 && total_shares == 0 {
        Ok(amount)
    } else if total_assets == 0 || total_shares == 0 {
        Err(VaultError::InvalidShareState)
    } else if mul_div(amount, total_shares, total_assets) > u64::MAX {
        Err(VaultError::MathOverflow)
    } else if mul_div(amount, total_shares, total_assets) == 0 {
        Err(VaultError::InvalidShareState)
    } else {
        Ok(mul_div(amount, total_shares, total_assets) as u64)
    }
}

/// Assets paid out for redeeming `shares` from a vault that holds
/// `total_assets` against `total_shares`: `shares * total_assets /
/// total_shares`, rounded down. Redeeming nothing, redeeming from a vault
/// without assets or shares, and a redemption worth less than one asset are
/// refused; a payout that does not fit in a `u64` is an overflow.
pub open spec fn spec_assets_from_shares(shares: u64, total_assets: u64, total_shares: u64) -> Result<u64, VaultError> {
    if shares == 0 {
        Err(VaultError::ZeroAmount)
    } else if total_assets == 0 || total_shares == 0 {
        Err(VaultError::InvalidShareState)
    } else if mul_div(shares, total_assets, total_shares) > u64::MAX {
        Err(VaultError::MathOverflow)
    } else if mul_div(shares, total_assets, total_shares) == 0 {
        Err(VaultError::InvalidShareState)
    } else {
        Ok(mul_div(shares, total_assets, total_shares) as u64)
    }
}

/// `floor(a * b / c)` computed in 128 bits, or `None` where it does not fit
/// in a `u64`.
fn checked_mul_div(a: u64, b: u64, c: u64) -> (r: Option<u64>)
    requires
        c > 0,
    ensures
        r == (if mul_div(a, b, c) > u64::MAX { None } else { Some(mul_div(a, b, c) as u64) }),
{
    assert((a as int) * (b as int) <= 0xffff_ffff_ffff_ffff * 0xffff_ffff_ffff_ffff) by (nonlinear_arith)
        requires
            a <= 0xffff_ffff_ffff_ffffu64,
            b <= 0xffff_ffff_ffff_ffffu64,
    ;
    let product = (a as u128) * (b as u128);
    let quotient = product / (c as u128);
    if quotient > u64::MAX as u128 {
        None
    } else {
        Some(quotient as u64)
    }
}

/// Shares minted for a deposit of `amount` (see [`spec_shares_from_deposit`]).
pub fn shares_from_deposit(amount: u64, total_assets: u64, total_shares: u64) -> (r: Result<u64, VaultError>)
    ensures
        r == spec_shares_from_deposit(amount, total_assets, total_shares),
{
    if amount == 0 {
        return Err(VaultError::ZeroAmount);
    }
    if total_assets == 0 && total_shares == 0 {
        return Ok(amount);
    }
    if total_assets == 0 || total_shares == 0 {
        return Err(VaultError::InvalidShareState);
    }
    let shares = match checked_mul_div(amount, total_shares, total_assets) {
        Some(shares) => shares,
        None => return Err(VaultError::MathOverflow),
    };
    if shares == 0 {
        return Err(VaultError::InvalidShareState);
    }
    Ok(shares)
}

/// Assets paid out for redeeming `shares` (see [`spec_assets_from_shares`]).
pub fn assets_from_shares(shares: u64, total_assets: u64, total_shares: u64) -> (r: Result<u64, VaultError>)
    ensures
        r == spec_assets_from_shares(shares, total_assets, total_shares),
{
    if shares == 0 {
        return Err(VaultError::ZeroAmount);
    }
    if total_assets == 0 || total_shares == 0 {
        return Err(VaultError::InvalidShareState);
    }
    let assets = match checked_mul_div(shares, total_assets, total_shares) {
        Some(assets) => assets,
        None => return Err(VaultError::MathOverflow),
    };
    if assets == 0 {
        return Err(VaultError::InvalidShareState);
    }
    Ok(assets)
}

} // verus!
