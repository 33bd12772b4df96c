//! Proposals that must wait before they take effect.
use vstd::prelude::*;

use crate::address::AddressKey;

verus! {

/// The window where none is configured: 48 hours.
pub const DEFAULT_TIMELOCK_SECONDS: u64 = 172_800;

/// The shortest window: one hour.
pub const MIN_TIMELOCK_SECONDS: u64 = 3_600;

/// The longest window: thirty days.
pub const MAX_TIMELOCK_SECONDS: u64 = 2_592_000;

/// A proposal to stop deposits and deductions.
#[derive(Clone, Copy, Debug, PartialEq, Eq)]
pub struct PendingPause {
    /// When it was made, in ledger seconds.
    pub proposed_at: u64,
    /// From when on it can be executed, in ledger seconds.
    pub execute_after: u64,
}

/// A proposal to replace the contract code.
#[derive(Clone, Copy, Debug, PartialEq, Eq)]
pub struct PendingUpgrade {
    /// The hash of the code to install.
    pub wasm_hash: [u8; 32],
    /// When it was made, in ledger seconds.
    pub proposed_at: u64,
    /// From when on it can be executed, in ledger seconds.
    pub execute_after: u64,
}

/// A proposal to transfer tokens out of the vault.
#[derive(Clone, Copy, Debug, PartialEq, Eq)]
pub struct PendingSweep {
    /// Who is to receive the tokens.
    pub to: AddressKey,
    /// How many.
    pub amount: i128,
    /// When it was made, in ledger seconds.
    pub proposed_at: u64,
    /// From when on it can be executed, in ledger seconds.
    pub execute_after: u64,
}

/// The time from which on a proposal can be executed, where it fits the clock.
pub open spec fn deadline(proposed_at: u64, window: u64) -> Option<u64> {
    if proposed_at + window <= u64::MAX {
        Some((proposed_at + window) as u64)
    } else {
        None
    }
}

/// Returns the time `window` seconds after `proposed_at`, or `None` where the
/// ledger clock does not reach that far.
pub fn saturating_deadline(proposed_at: u64, window: u64) -> (result: Option<u64>)
    ensures
        result == deadline(proposed_at, window),
{
    proposed_at.checked_add(window)
}

/// Whether `window` is within the bounds.
pub open spec fn is_valid_window(window: u64) -> bool {
    MIN_TIMELOCK_SECONDS <= window <= MAX_TIMELOCK_SECONDS
}

} // verus!
