//! Share accounting and instruction rules of a single-asset auto-compounding
//! vault.
//!
//! Users deposit the vault's asset and are credited internal shares; a
//! strategist compounds rewards into the vault; withdrawals redeem shares for
//! a proportional part of the assets. An admin manages the pause flags, the
//! strategist and the caps.
//!
//! Each instruction is a function from the vault (and the caller's position)
//! and the keys of the accounts it was given to the next state and the event
//! it emits. Instructions that move tokens come in two halves, `validate` and
//! `settle`: the token transfer happens between them, and `handle` runs both
//! for a caller that moves no tokens.

pub mod constants;
pub mod errors;
pub mod events;
pub mod instructions;
pub mod guarantees;
pub mod key;
pub mod laws;
pub mod math;
pub mod proofs;
pub mod state;

pub use errors::{InstructionError, VaultError};
pub use events::{
    CapsUpdatedEvent, CompoundEvent, DepositEvent, PauseFlagsUpdatedEvent, StrategistUpdatedEvent,
    WithdrawEvent,
};
pub use instructions::admin::AdminOnly;
pub use instructions::compound::Compound;
pub use instructions::deposit::Deposit;
pub use instructions::initialize::InitializeVault;
pub use instructions::withdraw::Withdraw;
pub use key::Key;
pub use math::{assets_from_shares, shares_from_deposit};
pub use state::{Position, Vault};
