use xnt_vault::constants::{
    DEFAULT_MAX_COMPOUND_PER_TX, DEFAULT_MAX_DEPOSIT_PER_TX, DEFAULT_MAX_TOTAL_ASSETS, PAUSE_COMPOUND,
    PAUSE_DEPOSIT, PAUSE_WITHDRAW,
};
use xnt_vault::instructions::{admin, compound, deposit, initialize, withdraw};
use xnt_vault::{
    AdminOnly, Compound, Deposit, InitializeVault, InstructionError, Key, Position, Vault, VaultError,
    Withdraw,
};

fn key(n: u64) -> Key {
    Key { w0: n, w1: 0, w2: 0, w3: 0 }
}

const ADMIN: u64 = 1;
const STRATEGIST: u64 = 2;
const MINT: u64 = 3;
const VAULT_TOKENS: u64 = 4;
const VAULT_ADDR: u64 = 5;
const ALICE: u64 = 6;
const BOB: u64 = 7;

fn new_vault() -> Vault {
    initialize::handle(
        &InitializeVault { admin: key(ADMIN), xnt_mint: key(MINT), vault_token_account: key(VAULT_TOKENS), vault_bump: 254 },
        key(STRATEGIST),
    )
}

fn fresh_position() -> Position {
    Position { owner: Key::zero(), vault: Key::zero(), shares: 0, bump: 0 }
}

fn deposit_accounts(owner: u64) -> Deposit {
    Deposit {
        owner: key(owner),
        vault: key(VAULT_ADDR),
        owner_token_mint: key(MINT),
        vault_token_account: key(VAULT_TOKENS),
        position_bump: 200,
    }
}

fn withdraw_accounts(owner: u64) -> Withdraw {
    Withdraw { owner: key(owner), vault: key(VAULT_ADDR), vault_token_account: key(VAULT_TOKENS) }
}

fn compound_accounts() -> Compound {
    Compound { strategist: key(STRATEGIST), strategist_reward_mint: key(MINT), vault_token_account: key(VAULT_TOKENS) }
}

fn vault_err(e: VaultError) -> InstructionError {
    InstructionError::Vault(e)
}

#[test]
fn initialize_creates_empty_vault_with_default_caps() {
    let v = new_vault();
    assert_eq!(v.admin, key(ADMIN));
    assert_eq!(v.strategist, key(STRATEGIST));
    assert_eq!(v.xnt_mint, key(MINT));
    assert_eq!(v.vault_token_account, key(VAULT_TOKENS));
    assert_eq!(v.total_assets, 0);
    assert_eq!(v.total_shares, 0);
    assert_eq!(v.max_total_assets, DEFAULT_MAX_TOTAL_ASSETS);
    assert_eq!(v.max_deposit_per_tx, DEFAULT_MAX_DEPOSIT_PER_TX);
    assert_eq!(v.max_compound_per_tx, DEFAULT_MAX_COMPOUND_PER_TX);
    assert_eq!(v.pause_flags, 0);
    assert_eq!(v.bump, 254);
    assert_eq!(DEFAULT_MAX_TOTAL_ASSETS, 1_000_000_000_000);
    assert_eq!(DEFAULT_MAX_DEPOSIT_PER_TX, 100_000_000_000);
    assert_eq!(DEFAULT_MAX_COMPOUND_PER_TX, 100_000_000_000);
}

#[test]
fn pause_flag_values() {
    assert_eq!(PAUSE_DEPOSIT, 1);
    assert_eq!(PAUSE_WITHDRAW, 2);
    assert_eq!(PAUSE_COMPOUND, 4);
}

#[test]
fn first_deposit_claims_position_and_mints_one_to_one() {
    let mut v = new_vault();
    let mut p = fresh_position();
    let ev = deposit::handle(&mut v, &mut p, &deposit_accounts(ALICE), 100).unwrap();
    assert_eq!(ev.owner, key(ALICE));
    assert_eq!(ev.amount, 100);
    assert_eq!(ev.minted_shares, 100);
    assert_eq!(ev.total_assets, 100);
    assert_eq!(ev.total_shares, 100);
    assert_eq!(v.total_assets, 100);
    assert_eq!(v.total_shares, 100);
    assert_eq!(p.owner, key(ALICE));
    assert_eq!(p.vault, key(VAULT_ADDR));
    assert_eq!(p.bump, 200);
    assert_eq!(p.shares, 100);
}

#[test]
fn deposit_keeps_owner_of_used_position() {
    let mut v = new_vault();
    let mut p = Position { owner: key(ALICE), vault: key(VAULT_ADDR), shares: 0, bump: 9 };
    deposit::handle(&mut v, &mut p, &deposit_accounts(ALICE), 10).unwrap();
    assert_eq!(p.bump, 9);
    assert_eq!(p.shares, 10);
}

#[test]
fn compound_then_deposit_mints_fewer_shares() {
    let mut v = new_vault();
    let mut alice = fresh_position();
    deposit::handle(&mut v, &mut alice, &deposit_accounts(ALICE), 100).unwrap();
    let ev = compound::handle(&mut v, &compound_accounts(), 100).unwrap();
    assert_eq!(ev.strategist, key(STRATEGIST));
    assert_eq!(ev.amount, 100);
    assert_eq!(ev.total_assets, 200);
    assert_eq!(ev.total_shares, 100);
    let mut bob = fresh_position();
    let ev = deposit::handle(&mut v, &mut bob, &deposit_accounts(BOB), 100).unwrap();
    assert_eq!(ev.minted_shares, 50);
    assert_eq!(v.total_assets, 300);
    assert_eq!(v.total_shares, 150);
    assert_eq!(bob.shares, 50);
}

#[test]
fn withdraw_pays_proportional_assets() {
    let mut v = new_vault();
    let mut alice = fresh_position();
    deposit::handle(&mut v, &mut alice, &deposit_accounts(ALICE), 150).unwrap();
    compound::handle(&mut v, &compound_accounts(), 150).unwrap();
    let ev = withdraw::handle(&mut v, &mut alice, &withdraw_accounts(ALICE), 25).unwrap();
    assert_eq!(ev.owner, key(ALICE));
    assert_eq!(ev.shares_burned, 25);
    assert_eq!(ev.assets_out, 50);
    assert_eq!(ev.total_assets, 250);
    assert_eq!(ev.total_shares, 125);
    assert_eq!(alice.shares, 125);
    assert_eq!(v.total_assets, 250);
    assert_eq!(v.total_shares, 125);
}

#[test]
fn withdraw_all_empties_vault() {
    let mut v = new_vault();
    let mut alice = fresh_position();
    deposit::handle(&mut v, &mut alice, &deposit_accounts(ALICE), 70).unwrap();
    compound::handle(&mut v, &compound_accounts(), 33).unwrap();
    let ev = withdraw::handle(&mut v, &mut alice, &withdraw_accounts(ALICE), 70).unwrap();
    assert_eq!(ev.assets_out, 103);
    assert_eq!(v.total_assets, 0);
    assert_eq!(v.total_shares, 0);
    assert_eq!(alice.shares, 0);
}

#[test]
fn deposit_then_withdraw_returns_no_more_than_deposited() {
    let mut v = new_vault();
    let mut alice = fresh_position();
    deposit::handle(&mut v, &mut alice, &deposit_accounts(ALICE), 7).unwrap();
    compound::handle(&mut v, &compound_accounts(), 3).unwrap();
    let mut bob = fresh_position();
    let minted = deposit::handle(&mut v, &mut bob, &deposit_accounts(BOB), 11).unwrap().minted_shares;
    assert_eq!(minted, 7);
    let out = withdraw::handle(&mut v, &mut bob, &withdraw_accounts(BOB), minted).unwrap().assets_out;
    assert_eq!(out, 10);
    assert!(out <= 11);
}

#[test]
fn deposit_errors_leave_state_unchanged() {
    let mut v = new_vault();
    let mut p = fresh_position();
    let before = (v, p);
    let mut wrong_mint = deposit_accounts(ALICE);
    wrong_mint.owner_token_mint = key(99);
    assert_eq!(deposit::handle(&mut v, &mut p, &wrong_mint, 10), Err(InstructionError::ConstraintRaw));
    let mut wrong_tokens = deposit_accounts(ALICE);
    wrong_tokens.vault_token_account = key(99);
    assert_eq!(deposit::handle(&mut v, &mut p, &wrong_tokens, 10), Err(InstructionError::ConstraintRaw));
    assert_eq!(deposit::handle(&mut v, &mut p, &deposit_accounts(ALICE), 0), Err(vault_err(VaultError::ZeroAmount)));
    assert_eq!(
        deposit::handle(&mut v, &mut p, &deposit_accounts(ALICE), DEFAULT_MAX_DEPOSIT_PER_TX + 1),
        Err(vault_err(VaultError::DepositCapExceeded))
    );
    assert_eq!((v, p), before);
}

#[test]
fn deposit_refused_while_paused() {
    let mut v = new_vault();
    v.pause_flags = PAUSE_DEPOSIT;
    let mut p = fresh_position();
    assert_eq!(deposit::handle(&mut v, &mut p, &deposit_accounts(ALICE), 10), Err(vault_err(VaultError::DepositsPaused)));
    v.pause_flags = PAUSE_WITHDRAW | PAUSE_COMPOUND;
    assert!(deposit::handle(&mut v, &mut p, &deposit_accounts(ALICE), 10).is_ok());
}

#[test]
fn deposit_over_total_cap_is_refused() {
    let mut v = new_vault();
    v.max_total_assets = 50;
    let mut p = fresh_position();
    deposit::handle(&mut v, &mut p, &deposit_accounts(ALICE), 40).unwrap();
    assert_eq!(
        deposit::handle(&mut v, &mut p, &deposit_accounts(ALICE), 11),
        Err(vault_err(VaultError::TotalAssetCapExceeded))
    );
    assert!(deposit::handle(&mut v, &mut p, &deposit_accounts(ALICE), 10).is_ok());
    assert_eq!(v.total_assets, 50);
}

#[test]
fn deposit_overflowing_assets_is_refused() {
    let mut v = new_vault();
    v.total_assets = u64::MAX;
    v.total_shares = 1;
    v.max_total_assets = u64::MAX;
    let mut p = fresh_position();
    assert_eq!(deposit::handle(&mut v, &mut p, &deposit_accounts(ALICE), 1), Err(vault_err(VaultError::MathOverflow)));
}

#[test]
fn deposit_into_vault_with_assets_but_no_shares_is_refused() {
    let mut v = new_vault();
    compound::handle(&mut v, &compound_accounts(), 5).unwrap();
    let mut p = fresh_position();
    assert_eq!(
        deposit::handle(&mut v, &mut p, &deposit_accounts(ALICE), 10),
        Err(vault_err(VaultError::InvalidShareState))
    );
}

#[test]
fn deposit_overflowing_position_is_refused_and_undone() {
    let mut v = new_vault();
    v.total_assets = 10;
    v.total_shares = 10;
    let mut p = Position { owner: key(ALICE), vault: key(VAULT_ADDR), shares: u64::MAX, bump: 1 };
    let before = (v, p);
    assert_eq!(deposit::handle(&mut v, &mut p, &deposit_accounts(ALICE), 10), Err(vault_err(VaultError::MathOverflow)));
    assert_eq!((v, p), before);
}

#[test]
fn deposit_in_two_halves_matches_handle() {
    let mut v1 = new_vault();
    let mut p1 = fresh_position();
    let accounts = deposit_accounts(ALICE);
    let plan = deposit::validate(&v1, &accounts, 100).unwrap();
    assert_eq!(plan.amount, 100);
    assert_eq!(plan.minted_shares, 100);
    assert_eq!(plan.new_total_assets, 100);
    let ev1 = deposit::settle(&mut v1, &mut p1, &accounts, &plan).unwrap();
    let mut v2 = new_vault();
    let mut p2 = fresh_position();
    let ev2 = deposit::handle(&mut v2, &mut p2, &accounts, 100).unwrap();
    assert_eq!((v1, p1, ev1), (v2, p2, ev2));
}

#[test]
fn withdraw_errors() {
    let mut v = new_vault();
    let mut alice = fresh_position();
    deposit::handle(&mut v, &mut alice, &deposit_accounts(ALICE), 100).unwrap();
    let before = (v, alice);
    assert_eq!(withdraw::handle(&mut v, &mut alice, &withdraw_accounts(BOB), 10), Err(InstructionError::ConstraintRaw));
    let mut other_vault = withdraw_accounts(ALICE);
    other_vault.vault = key(99);
    assert_eq!(withdraw::handle(&mut v, &mut alice, &other_vault, 10), Err(InstructionError::ConstraintRaw));
    let mut other_tokens = withdraw_accounts(ALICE);
    other_tokens.vault_token_account = key(99);
    assert_eq!(withdraw::handle(&mut v, &mut alice, &other_tokens, 10), Err(InstructionError::ConstraintRaw));
    assert_eq!(withdraw::handle(&mut v, &mut alice, &withdraw_accounts(ALICE), 0), Err(vault_err(VaultError::ZeroAmount)));
    assert_eq!(
        withdraw::handle(&mut v, &mut alice, &withdraw_accounts(ALICE), 101),
        Err(vault_err(VaultError::InsufficientShares))
    );
    v.pause_flags = PAUSE_WITHDRAW;
    assert_eq!(
        withdraw::handle(&mut v, &mut alice, &withdraw_accounts(ALICE), 10),
        Err(vault_err(VaultError::WithdrawalsPaused))
    );
    v.pause_flags = 0;
    assert_eq!((v, alice), before);
}

#[test]
fn withdraw_worth_nothing_is_refused() {
    let mut v = new_vault();
    v.total_assets = 1;
    v.total_shares = 3;
    let mut p = Position { owner: key(ALICE), vault: key(VAULT_ADDR), shares: 3, bump: 1 };
    assert_eq!(
        withdraw::handle(&mut v, &mut p, &withdraw_accounts(ALICE), 1),
        Err(vault_err(VaultError::InvalidShareState))
    );
}

#[test]
fn withdraw_more_than_vault_shares_is_undone() {
    let mut v = new_vault();
    v.total_assets = 10;
    v.total_shares = 10;
    let mut p = Position { owner: key(ALICE), vault: key(VAULT_ADDR), shares: 20, bump: 1 };
    let before = (v, p);
    assert_eq!(withdraw::handle(&mut v, &mut p, &withdraw_accounts(ALICE), 20), Err(vault_err(VaultError::MathOverflow)));
    assert_eq!((v, p), before);
}

#[test]
fn compound_errors() {
    let mut v = new_vault();
    let before = v;
    let mut intruder = compound_accounts();
    intruder.strategist = key(ALICE);
    intruder.vault_token_account = key(99);
    assert_eq!(compound::handle(&mut v, &intruder, 10), Err(vault_err(VaultError::Unauthorized)));
    let mut wrong_tokens = compound_accounts();
    wrong_tokens.vault_token_account = key(99);
    assert_eq!(compound::handle(&mut v, &wrong_tokens, 10), Err(InstructionError::ConstraintRaw));
    let mut wrong_mint = compound_accounts();
    wrong_mint.strategist_reward_mint = key(99);
    assert_eq!(compound::handle(&mut v, &wrong_mint, 10), Err(InstructionError::ConstraintRaw));
    assert_eq!(compound::handle(&mut v, &compound_accounts(), 0), Err(vault_err(VaultError::ZeroAmount)));
    assert_eq!(
        compound::handle(&mut v, &compound_accounts(), DEFAULT_MAX_COMPOUND_PER_TX + 1),
        Err(vault_err(VaultError::CompoundCapExceeded))
    );
    v.pause_flags = PAUSE_COMPOUND;
    assert_eq!(compound::handle(&mut v, &compound_accounts(), 10), Err(vault_err(VaultError::CompoundPaused)));
    v.pause_flags = 0;
    v.max_total_assets = 5;
    assert_eq!(
        compound::handle(&mut v, &compound_accounts(), 10),
        Err(vault_err(VaultError::TotalAssetCapExceeded))
    );
    v.max_total_assets = before.max_total_assets;
    assert_eq!(v, before);
}

#[test]
fn compound_overflowing_assets_is_refused() {
    let mut v = new_vault();
    v.total_assets = u64::MAX;
    v.max_total_assets = u64::MAX;
    assert_eq!(compound::handle(&mut v, &compound_accounts(), 1), Err(vault_err(VaultError::MathOverflow)));
}

#[test]
fn set_pause_flags_rules() {
    let mut v = new_vault();
    let admin_accounts = AdminOnly { admin: key(ADMIN) };
    assert_eq!(
        admin::set_pause_flags(&mut v, &AdminOnly { admin: key(ALICE) }, 1),
        Err(VaultError::Unauthorized)
    );
    assert_eq!(admin::set_pause_flags(&mut v, &admin_accounts, 8), Err(VaultError::InvalidPauseFlags));
    assert_eq!(admin::set_pause_flags(&mut v, &admin_accounts, 0xff), Err(VaultError::InvalidPauseFlags));
    assert_eq!(v.pause_flags, 0);
    let ev = admin::set_pause_flags(&mut v, &admin_accounts, 7).unwrap();
    assert_eq!(ev.admin, key(ADMIN));
    assert_eq!(ev.pause_flags, 7);
    assert_eq!(v.pause_flags, 7);
}

#[test]
fn set_strategist_rules() {
    let mut v = new_vault();
    assert_eq!(
        admin::set_strategist(&mut v, &AdminOnly { admin: key(STRATEGIST) }, key(ALICE)),
        Err(VaultError::Unauthorized)
    );
    assert_eq!(v.strategist, key(STRATEGIST));
    let ev = admin::set_strategist(&mut v, &AdminOnly { admin: key(ADMIN) }, key(BOB)).unwrap();
    assert_eq!(ev.admin, key(ADMIN));
    assert_eq!(ev.strategist, key(BOB));
    assert_eq!(v.strategist, key(BOB));
    assert_eq!(
        compound::handle(&mut v, &compound_accounts(), 10),
        Err(vault_err(VaultError::Unauthorized))
    );
}

#[test]
fn set_caps_rules() {
    let mut v = new_vault();
    let admin_accounts = AdminOnly { admin: key(ADMIN) };
    assert_eq!(admin::set_caps(&mut v, &AdminOnly { admin: key(ALICE) }, 1, 1, 1), Err(VaultError::Unauthorized));
    assert_eq!(admin::set_caps(&mut v, &admin_accounts, 0, 1, 1), Err(VaultError::ZeroAmount));
    assert_eq!(admin::set_caps(&mut v, &admin_accounts, 1, 0, 1), Err(VaultError::ZeroAmount));
    assert_eq!(admin::set_caps(&mut v, &admin_accounts, 1, 1, 0), Err(VaultError::ZeroAmount));
    assert_eq!(v.max_total_assets, DEFAULT_MAX_TOTAL_ASSETS);
    let ev = admin::set_caps(&mut v, &admin_accounts, 500, 40, 30).unwrap();
    assert_eq!((ev.admin, ev.max_total_assets, ev.max_deposit_per_tx, ev.max_compound_per_tx), (key(ADMIN), 500, 40, 30));
    assert_eq!((v.max_total_assets, v.max_deposit_per_tx, v.max_compound_per_tx), (500, 40, 30));
}

#[test]
fn key_zero() {
    assert!(Key::zero().is_zero());
    assert!(!key(1).is_zero());
    assert!(!Key { w0: 0, w1: 0, w2: 0, w3: 1 }.is_zero());
}

#[test]
fn only_position_owner_can_withdraw() {
    let mut v = new_vault();
    let mut alice = fresh_position();
    deposit::handle(&mut v, &mut alice, &deposit_accounts(ALICE), 100).unwrap();
    assert_eq!(withdraw::handle(&mut v, &mut alice, &withdraw_accounts(BOB), 100), Err(InstructionError::ConstraintRaw));
    assert_eq!(alice.shares, 100);
}

#[test]
fn compound_in_two_halves_matches_handle() {
    let mut v1 = new_vault();
    let plan = compound::validate(&v1, &compound_accounts(), 42).unwrap();
    assert_eq!((plan.amount, plan.new_total_assets), (42, 42));
    let ev1 = compound::settle(&mut v1, &compound_accounts(), &plan);
    let mut v2 = new_vault();
    let ev2 = compound::handle(&mut v2, &compound_accounts(), 42).unwrap();
    assert_eq!((v1, ev1), (v2, ev2));
}

#[test]
fn withdraw_in_two_halves_matches_handle() {
    let mut v1 = new_vault();
    let mut p1 = fresh_position();
    deposit::handle(&mut v1, &mut p1, &deposit_accounts(ALICE), 90).unwrap();
    compound::handle(&mut v1, &compound_accounts(), 9).unwrap();
    let (mut v2, mut p2) = (v1, p1);
    let plan = withdraw::validate(&v1, &p1, &withdraw_accounts(ALICE), 30).unwrap();
    assert_eq!((plan.shares, plan.assets_out), (30, 33));
    let ev1 = withdraw::settle(&mut v1, &mut p1, &withdraw_accounts(ALICE), &plan).unwrap();
    let ev2 = withdraw::handle(&mut v2, &mut p2, &withdraw_accounts(ALICE), 30).unwrap();
    assert_eq!((v1, p1, ev1), (v2, p2, ev2));
}
