//! The logic of a vault contract that holds a token: deposits, deductions to a
//! settlement contract, a pause circuit breaker, timelocked admin actions,
//! reserve caps, request markers, and the split into a hot and a cold pool.
//!
//! [`vault::CalloraVault`] is the vault as it is stored. Its methods decide; what
//! has to happen outside the vault, they return as [`effects::Action`]s.
//! [`model::VaultModel`] says what each of them does, and [`laws`] what holds of
//! all of them together.
use vstd::prelude::*;

pub mod address;
pub mod calls;
pub mod cold_storage;
pub mod effects;
pub mod errors;
pub mod events;
pub mod host;
pub mod laws;
pub mod limits;
pub mod model;
pub mod requests;
pub mod timelock;
pub mod vault;
pub mod views;

pub use address::AddressKey;
pub use effects::{
    Action, BatchDeductPayload, DeductPayload, DepositPayload, InitPayload, VaultEvent,
};
pub use errors::VaultError;
pub use timelock::{DEFAULT_TIMELOCK_SECONDS, MAX_TIMELOCK_SECONDS, MIN_TIMELOCK_SECONDS};
pub use vault::CalloraVault;

verus! {

/// Ledgers of remaining lifetime below which stored entries are extended, about
/// thirty days.
pub const INSTANCE_BUMP_THRESHOLD: u32 = 17_280 * 30;

/// Ledgers of lifetime to which stored entries are extended, about sixty days.
pub const INSTANCE_BUMP_AMOUNT: u32 = 17_280 * 60;

} // verus!
