//! Admin instructions: pause flags, strategist and caps.
use vstd::prelude::*;
use crate::constants::{PAUSE_COMPOUND, PAUSE_DEPOSIT, PAUSE_WITHDRAW};
use crate::errors::VaultError;
use crate::events::{CapsUpdatedEvent, PauseFlagsUpdatedEvent, StrategistUpdatedEvent};
use crate::key::Key;
use crate::state::Vault;

verus! {

/// The accounts of an admin instruction, by the key that the rules compare.
#[derive(Clone, Copy, Debug, PartialEq, Eq, Structural)]
pub struct AdminOnly {
    /// The caller, who signs.
    pub admin: Key,
}

/// Every pause flag bit the vault knows.
pub open spec fn allowed_pause_flags() -> u8 {
    PAUSE_DEPOSIT | PAUSE_WITHDRAW | PAUSE_COMPOUND
}

/// `flags` sets no bit but the known pause flags.
pub open spec fn known_pause_flags(flags: u8) -> bool {
    flags & !allowed_pause_flags() == 0
}

/// The known pause flags are exactly the values below 8.
pub proof fn lemma_known_pause_flags(flags: u8)
    ensures
        known_pause_flags(flags) <==> flags < 8,
{
    assert((flags & !((1u8 << 0u8) | (1u8 << 1u8) | (1u8 << 2u8)) == 0) <==> flags < 8) by (bit_vector);
}

/// Sets the pause flags. Only the vault's admin may, and only known flag bits
/// may be set; on an error the vault does not change. Nothing but the pause
/// flags changes.
pub fn set_pause_flags(vault: &mut Vault, accounts: &AdminOnly, pause_flags: u8) -> (r: Result<PauseFlagsUpdatedEvent, VaultError>)
    ensures
        old(vault).admin != accounts.admin ==> r == Err::<PauseFlagsUpdatedEvent, VaultError>(VaultError::Unauthorized),
        old(vault).admin == accounts.admin && !known_pause_flags(pause_flags)
            ==> r == Err::<PauseFlagsUpdatedEvent, VaultError>(VaultError::InvalidPauseFlags),
        old(vault).admin == accounts.admin && known_pause_flags(pause_flags) ==> r == Ok::<PauseFlagsUpdatedEvent, VaultError>(
            PauseFlagsUpdatedEvent { admin: accounts.admin, pause_flags },
        ),
        r is Ok <==> old(vault).admin == accounts.admin && pause_flags < 8,
        r is Ok ==> *final(vault) == (Vault { pause_flags, ..*old(vault) }),
        r is Err ==> *final(vault) == *old(vault),
{
    proof {
        lemma_known_pause_flags(pause_flags);
    }
    if vault.admin != accounts.admin {
        return Err(VaultError::Unauthorized);
    }
    let allowed_flags = PAUSE_DEPOSIT | PAUSE_WITHDRAW | PAUSE_COMPOUND;
    if pause_flags & !allowed_flags != 0 {
        return Err(VaultError::InvalidPauseFlags);
    }
    vault.pause_flags = pause_flags;
    Ok(PauseFlagsUpdatedEvent { admin: accounts.admin, pause_flags })
}

/// Replaces the strategist. Only the vault's admin may; on an error the vault
/// does not change. Nothing but the strategist changes.
pub fn set_strategist(vault: &mut Vault, accounts: &AdminOnly, strategist: Key) -> (r: Result<StrategistUpdatedEvent, VaultError>)
    ensures
        old(vault).admin != accounts.admin ==> r == Err::<StrategistUpdatedEvent, VaultError>(VaultError::Unauthorized)
            && *final(vault) == *old(vault),
        old(vault).admin == accounts.admin ==> r == Ok::<StrategistUpdatedEvent, VaultError>(
            StrategistUpdatedEvent { admin: accounts.admin, strategist },
        ) && *final(vault) == (Vault { strategist, ..*old(vault) }),
{
    if vault.admin != accounts.admin {
        return Err(VaultError::Unauthorized);
    }
    vault.strategist = strategist;
    Ok(StrategistUpdatedEvent { admin: accounts.admin, strategist })
}

/// Replaces the three caps. Only the vault's admin may, and no cap may be
/// zero (checked in the order total, deposit, compound); on an error the
/// vault does not change. Nothing but the caps changes: a cap below the
/// vault's current assets is accepted and only stops further inflows.
pub fn set_caps(
    vault: &mut Vault,
    accounts: &AdminOnly,
    max_total_assets: u64,
    max_deposit_per_tx: u64,
    max_compound_per_tx: u64,
) -> (r: Result<CapsUpdatedEvent, VaultError>)
    ensures
        old(vault).admin != accounts.admin ==> r == Err::<CapsUpdatedEvent, VaultError>(VaultError::Unauthorized),
        old(vault).admin == accounts.admin && (max_total_assets == 0 || max_deposit_per_tx == 0
            || max_compound_per_tx == 0) ==> r == Err::<CapsUpdatedEvent, VaultError>(VaultError::ZeroAmount),
        old(vault).admin == accounts.admin && max_total_assets > 0 && max_deposit_per_tx > 0
            && max_compound_per_tx > 0 ==> r == Ok::<CapsUpdatedEvent, VaultError>(
            CapsUpdatedEvent { admin: accounts.admin, max_total_assets, max_deposit_per_tx, max_compound_per_tx },
        ),
        r is Ok ==> *final(vault) == (Vault {
            max_total_assets,
            max_deposit_per_tx,
            max_compound_per_tx,
            ..*old(vault)
        }),
        r is Err ==> *final(vault) == *old(vault),
{
    if vault.admin != accounts.admin {
        return Err(VaultError::Unauthorized);
    }
    if max_total_assets == 0 {
        return Err(VaultError::ZeroAmount);
    }
    if max_deposit_per_tx == 0 {
        return Err(VaultError::ZeroAmount);
    }
    if max_compound_per_tx == 0 {
        return Err(VaultError::ZeroAmount);
    }
    vault.max_total_assets = max_total_assets;
    vault.max_deposit_per_tx = max_deposit_per_tx;
    vault.max_compound_per_tx = max_compound_per_tx;
    Ok(CapsUpdatedEvent { admin: accounts.admin, max_total_assets, max_deposit_per_tx, max_compound_per_tx })
}

} // verus!
