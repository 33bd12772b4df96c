//! Read-only views of what a call would do.
use vstd::prelude::*;

use crate::errors::VaultError;
use crate::vault::CalloraVault;

verus! {

/// What a sweep of the idle balance would move. The idle balance is what the
/// vault holds on the ledger beyond its tracked balance, such as tokens that were
/// sent to it without a deposit.
#[derive(Clone, Copy, Debug, PartialEq, Eq)]
pub struct SweepPreview {
    /// What the vault holds on the ledger.
    pub on_ledger_balance: i128,
    /// What the vault tracks.
    pub tracked_balance: i128,
    /// What the vault holds beyond what it tracks, never less than zero.
    pub idle_balance: i128,
    /// Whether there is any idle balance.
    pub has_idle: bool,
}

/// The preview for given balances.
pub open spec fn preview_of(on_ledger: i128, recorded: i128) -> SweepPreview {
    let idle = if on_ledger > recorded {
        on_ledger - recorded
    } else {
        0
    };
    SweepPreview {
        on_ledger_balance: on_ledger,
        tracked_balance: recorded,
        idle_balance: idle as i128,
        has_idle: idle > 0,
    }
}

/// Computes the idle balance of a vault that holds `on_ledger` of its token.
pub fn compute_sweep_preview(vault: &CalloraVault, on_ledger: i128) -> (result: Result<
    SweepPreview,
    VaultError,
>)
    requires
        vault@.initialized() ==> on_ledger - vault@.current().balance <= i128::MAX,
    ensures
        result == (if vault@.initialized() {
            Ok::<SweepPreview, VaultError>(preview_of(on_ledger, vault@.current().balance))
        } else {
            Err(VaultError::NotInitialized)
        }),
{
    let recorded: i128 = match vault.settings {
        Some(settings) => settings.balance,
        None => return Err(VaultError::NotInitialized),
    };
    let idle: i128 = if on_ledger > recorded {
        on_ledger - recorded
    } else {
        0
    };
    Ok(
        SweepPreview {
            on_ledger_balance: on_ledger,
            tracked_balance: recorded,
            idle_balance: idle,
            has_idle: idle > 0,
        },
    )
}

} // verus!
