//! Arithmetic facts about the share math that the instruction laws rest on.
use vstd::prelude::*;
use vstd::arithmetic::div_mod::{lemma_div_pos_is_pos, lemma_fundamental_div_mod, lemma_mod_pos_bound};
use crate::errors::VaultError;
use crate::math::{mul_div, spec_assets_from_shares, spec_shares_from_deposit};

verus! {

/// `mul_div(a, b, c)` is non-negative and, multiplied back by `c`, is at
/// most `a * b`: rounding down only ever loses value.
pub proof fn lemma_mul_div_bound(a: u64, b: u64, c: u64)
    requires
        c > 0,
    ensures
        0 <= mul_div(a, b, c),
        mul_div(a, b, c) * (c as int) <= (a as int) * (b as int),
{
    let x = (a as int) * (b as int);
    let d = c as int;
    assert(x >= 0) by (nonlinear_arith)
        requires
            a >= 0,
            b >= 0,
            x == (a as int) * (b as int),
    ;
    let q = x / d;
    lemma_fundamental_div_mod(x, d);
    lemma_mod_pos_bound(x, d);
    lemma_div_pos_is_pos(x, d);
    assert(q * d <= x) by (nonlinear_arith)
        requires
            x == d * q + x % d,
            x % d >= 0,
    ;
}

/// The shares a deposit mints are positive, and worth no more than the
/// deposit: `minted * total_assets <= amount * total_shares`; an empty vault
/// mints exactly `amount`.
pub proof fn lemma_minted_shares_bound(amount: u64, total_assets: u64, total_shares: u64)
    requires
        spec_shares_from_deposit(amount, total_assets, total_shares) is Ok,
    ensures
        ({
            let minted = spec_shares_from_deposit(amount, total_assets, total_shares)->Ok_0;
            &&& minted > 0
            &&& (minted as int) * (total_assets as int) <= (amount as int) * (total_shares as int)
            &&& total_assets == 0 ==> minted == amount && total_shares == 0
        }),
{
    if total_assets != 0 {
        lemma_mul_div_bound(amount, total_shares, total_assets);
    }
}

/// The assets a redemption pays out are positive and worth no more than the
/// shares redeemed: `assets_out * total_shares <= shares * total_assets`.
pub proof fn lemma_assets_out_bound(shares: u64, total_assets: u64, total_shares: u64)
    requires
        spec_assets_from_shares(shares, total_assets, total_shares) is Ok,
    ensures
        ({
            let out = spec_assets_from_shares(shares, total_assets, total_shares)->Ok_0;
            &&& out > 0
            &&& (out as int) * (total_shares as int) <= (shares as int) * (total_assets as int)
        }),
{
    lemma_mul_div_bound(shares, total_assets, total_shares);
}

} // verus!
