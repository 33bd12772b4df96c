//! What a call of the vault asks its surroundings to do: token transfers, calls
//! of the settlement contract, a change of the contract code, and events.
use soroban_sdk::{Env, Symbol};
use vstd::prelude::*;

use crate::address::AddressKey;
use crate::events;
use crate::host::symbol_text;

verus! {

/// Data of the `init` event: the configuration that the vault starts with.
#[derive(Clone, Copy, Debug, PartialEq, Eq)]
pub struct InitPayload {
    /// Who owns the vault.
    pub owner: AddressKey,
    /// The token that the vault holds.
    pub usdc_token: AddressKey,
    /// The balance that the vault starts with.
    pub initial_balance: i128,
    /// The least amount of a deposit.
    pub min_deposit: i128,
    /// The largest amount of a deduction.
    pub max_deduct: i128,
    /// Who receives what is deducted.
    pub settlement: AddressKey,
}

/// Data of the `deposit` event.
#[derive(Clone, Copy, Debug, PartialEq, Eq)]
pub struct DepositPayload {
    /// The amount deposited.
    pub amount: i128,
    /// The tracked balance with the deposit.
    pub balance_after: i128,
}

/// Data of the `deduct` event of a single deduction.
#[derive(Clone, Copy, Debug, PartialEq, Eq)]
pub struct DeductPayload {
    /// The amount deducted.
    pub amount: i128,
    /// The id that the caller gave the request.
    pub request_id: u64,
    /// The tracked balance without the deduction.
    pub balance_after: i128,
    /// Who received the amount.
    pub destination: AddressKey,
}

/// Data of the `deduct` event of a batch.
#[derive(Clone, Copy, Debug, PartialEq, Eq)]
pub struct BatchDeductPayload {
    /// The sum of the amounts deducted.
    pub total_amount: i128,
    /// How many items the batch has.
    pub item_count: u32,
    /// The tracked balance without the deductions.
    pub balance_after: i128,
    /// Who received the sum.
    pub destination: AddressKey,
}

/// An event of the vault. Its topics are its name and the addresses of
/// [`VaultEvent::actors`]; the rest is its data.
#[derive(Debug, PartialEq, Eq)]
pub enum VaultEvent {
    /// The vault has been initialized.
    Init { payload: InitPayload },
    /// A deposit has been made.
    Deposit { caller: AddressKey, payload: DepositPayload },
    /// A deduction has been made.
    Deduct { caller: AddressKey, payload: DeductPayload },
    /// A batch of deductions has been made.
    BatchDeduct { caller: AddressKey, payload: BatchDeductPayload },
    /// The authorized caller has changed to `caller`.
    SetAuthorizedCaller { caller: AddressKey },
    /// Deposits and deductions have been stopped.
    VaultPaused { caller: AddressKey },
    /// Deposits and deductions have been resumed.
    VaultUnpaused { caller: AddressKey },
    /// The deduction limit has changed.
    SetMaxDeduct { caller: AddressKey, max_deduct: i128 },
    /// The settlement contract has changed.
    SetSettlement { caller: AddressKey, settlement: AddressKey },
    /// The timelock window has changed. `stored` is what holds from now on,
    /// `window` what was asked for.
    TimelockWindowChanged { caller: AddressKey, stored: u64, window: u64 },
    /// An admin has been nominated.
    AdminNominated { caller: AddressKey, new_admin: AddressKey },
    /// A nominated admin has taken the role.
    AdminAccepted { old_admin: AddressKey, new_admin: AddressKey },
    /// A pause has been proposed.
    PauseProposed { caller: AddressKey, proposed_at: u64, execute_after: u64 },
    /// A proposed pause has been executed.
    PauseExecuted { caller: AddressKey, executed_at: u64 },
    /// The pause slot has been cleared.
    PauseCancelled { caller: AddressKey, had_proposal: bool },
    /// An upgrade has been proposed.
    UpgradeProposed {
        caller: AddressKey,
        wasm_hash: [u8; 32],
        proposed_at: u64,
        execute_after: u64,
    },
    /// A proposed upgrade has been executed.
    UpgradeExecuted { caller: AddressKey, executed_at: u64 },
    /// The contract code has been replaced.
    Upgraded { caller: AddressKey, wasm_hash: [u8; 32] },
    /// The upgrade slot has been cleared.
    UpgradeCancelled { caller: AddressKey, had_proposal: bool },
    /// A sweep has been proposed.
    SweepProposed {
        caller: AddressKey,
        to: AddressKey,
        amount: i128,
        proposed_at: u64,
        execute_after: u64,
    },
    /// A proposed sweep has been executed.
    SweepExecuted { caller: AddressKey, to: AddressKey, amount: i128, executed_at: u64 },
    /// Tokens have been distributed.
    Distribute { to: AddressKey, amount: i128 },
    /// The sweep slot has been cleared.
    SweepCancelled { caller: AddressKey, had_proposal: bool },
    /// The marker of a processed request has been removed.
    RequestIdPruned { caller: AddressKey, id: String },
    /// The reserve cap of a token has been set.
    ReserveCapSet { caller: AddressKey, token: AddressKey, previous: i128, cap: i128 },
}

impl VaultEvent {
    /// The name of the event.
    pub open spec fn name(self) -> Seq<char> {
        match self {
            VaultEvent::Init { .. } => "init"@,
            VaultEvent::Deposit { .. } => "deposit"@,
            VaultEvent::Deduct { .. } => "deduct"@,
            VaultEvent::BatchDeduct { .. } => "deduct"@,
            VaultEvent::SetAuthorizedCaller { .. } => "set_authorized_caller"@,
            VaultEvent::VaultPaused { .. } => "vault_paused"@,
            VaultEvent::VaultUnpaused { .. } => "vault_unpaused"@,
            VaultEvent::SetMaxDeduct { .. } => "set_max_deduct"@,
            VaultEvent::SetSettlement { .. } => "set_settlement"@,
            VaultEvent::TimelockWindowChanged { .. } => "tl_window_changed"@,
            VaultEvent::AdminNominated { .. } => "admin_nominated"@,
            VaultEvent::AdminAccepted { .. } => "admin_accepted"@,
            VaultEvent::PauseProposed { .. } => "pause_proposed"@,
            VaultEvent::PauseExecuted { .. } => "pause_executed"@,
            VaultEvent::PauseCancelled { .. } => "pause_cancelled"@,
            VaultEvent::UpgradeProposed { .. } => "upgrade_proposed"@,
            VaultEvent::UpgradeExecuted { .. } => "upgrade_executed"@,
            VaultEvent::Upgraded { .. } => "upgraded"@,
            VaultEvent::UpgradeCancelled { .. } => "upgrade_cancelled"@,
            VaultEvent::SweepProposed { .. } => "sweep_proposed"@,
            VaultEvent::SweepExecuted { .. } => "sweep_executed"@,
            VaultEvent::Distribute { .. } => "distribute"@,
            VaultEvent::SweepCancelled { .. } => "sweep_cancelled"@,
            VaultEvent::RequestIdPruned { .. } => "request_id_pruned"@,
            VaultEvent::ReserveCapSet { .. } => "reserve_cap_set"@,
        }
    }

    /// The addresses that follow the name among the topics.
    pub open spec fn actor_topics(self) -> Seq<AddressKey> {
        match self {
            VaultEvent::Init { payload } => seq![payload.owner],
            VaultEvent::Deposit { caller, .. } => seq![caller],
            VaultEvent::Deduct { caller, .. } => seq![caller],
            VaultEvent::BatchDeduct { caller, .. } => seq![caller],
            VaultEvent::SetAuthorizedCaller { caller } => seq![caller],
            VaultEvent::VaultPaused { caller } => seq![caller],
            VaultEvent::VaultUnpaused { caller } => seq![caller],
            VaultEvent::SetMaxDeduct { caller, .. } => seq![caller],
            VaultEvent::SetSettlement { caller, .. } => seq![caller],
            VaultEvent::TimelockWindowChanged { caller, .. } => seq![caller],
            VaultEvent::AdminNominated { caller, new_admin } => seq![caller, new_admin],
            VaultEvent::AdminAccepted { old_admin, new_admin } => seq![old_admin, new_admin],
            VaultEvent::PauseProposed { caller, .. } => seq![caller],
            VaultEvent::PauseExecuted { caller, .. } => seq![caller],
            VaultEvent::PauseCancelled { caller, .. } => seq![caller],
            VaultEvent::UpgradeProposed { caller, .. } => seq![caller],
            VaultEvent::UpgradeExecuted { caller, .. } => seq![caller],
            VaultEvent::Upgraded { caller, .. } => seq![caller],
            VaultEvent::UpgradeCancelled { caller, .. } => seq![caller],
            VaultEvent::SweepProposed { caller, .. } => seq![caller],
            VaultEvent::SweepExecuted { caller, .. } => seq![caller],
            VaultEvent::Distribute { to, .. } => seq![to],
            VaultEvent::SweepCancelled { caller, .. } => seq![caller],
            VaultEvent::RequestIdPruned { caller, .. } => seq![caller],
            VaultEvent::ReserveCapSet { caller, token, .. } => seq![caller, token],
        }
    }

    /// Returns the first topic: the event's name.
    pub fn topic(&self, env: &Env) -> (topic: Symbol)
        ensures
            symbol_text(topic) == self.name(),
    {
        match self {
            VaultEvent::Init { .. } => events::event_init(env),
            VaultEvent::Deposit { .. } => events::event_deposit(env),
            VaultEvent::Deduct { .. } => events::event_deduct(env),
            VaultEvent::BatchDeduct { .. } => events::event_deduct(env),
            VaultEvent::SetAuthorizedCaller { .. } => events::event_set_authorized_caller(env),
            VaultEvent::VaultPaused { .. } => events::event_vault_paused(env),
            VaultEvent::VaultUnpaused { .. } => events::event_vault_unpaused(env),
            VaultEvent::SetMaxDeduct { .. } => events::event_set_max_deduct(env),
            VaultEvent::SetSettlement { .. } => events::event_set_settlement(env),
            VaultEvent::TimelockWindowChanged { .. } => events::event_timelock_window_changed(env),
            VaultEvent::AdminNominated { .. } => events::event_admin_nominated(env),
            VaultEvent::AdminAccepted { .. } => events::event_admin_accepted(env),
            VaultEvent::PauseProposed { .. } => events::event_pause_proposed(env),
            VaultEvent::PauseExecuted { .. } => events::event_pause_executed(env),
            VaultEvent::PauseCancelled { .. } => events::event_pause_cancelled(env),
            VaultEvent::UpgradeProposed { .. } => events::event_upgrade_proposed(env),
            VaultEvent::UpgradeExecuted { .. } => events::event_upgrade_executed(env),
            VaultEvent::Upgraded { .. } => events::event_upgraded(env),
            VaultEvent::UpgradeCancelled { .. } => events::event_upgrade_cancelled(env),
            VaultEvent::SweepProposed { .. } => events::event_sweep_proposed(env),
            VaultEvent::SweepExecuted { .. } => events::event_sweep_executed(env),
            VaultEvent::Distribute { .. } => events::event_distribute(env),
            VaultEvent::SweepCancelled { .. } => events::event_sweep_cancelled(env),
            VaultEvent::RequestIdPruned { .. } => events::event_request_id_pruned(env),
            VaultEvent::ReserveCapSet { .. } => events::event_reserve_cap_set(env),
        }
    }

    /// Returns the addresses that follow the name among the topics.
    pub fn actors(&self) -> (actors: Vec<AddressKey>)
        ensures
            actors@ == self.actor_topics(),
    {
        match self {
            VaultEvent::Init { payload } => vec![payload.owner],
            VaultEvent::Deposit { caller, .. } => vec![*caller],
            VaultEvent::Deduct { caller, .. } => vec![*caller],
            VaultEvent::BatchDeduct { caller, .. } => vec![*caller],
            VaultEvent::SetAuthorizedCaller { caller } => vec![*caller],
            VaultEvent::VaultPaused { caller } => vec![*caller],
            VaultEvent::VaultUnpaused { caller } => vec![*caller],
            VaultEvent::SetMaxDeduct { caller, .. } => vec![*caller],
            VaultEvent::SetSettlement { caller, .. } => vec![*caller],
            VaultEvent::TimelockWindowChanged { caller, .. } => vec![*caller],
            VaultEvent::AdminNominated { caller, new_admin } => vec![*caller, *new_admin],
            VaultEvent::AdminAccepted { old_admin, new_admin } => vec![*old_admin, *new_admin],
            VaultEvent::PauseProposed { caller, .. } => vec![*caller],
            VaultEvent::PauseExecuted { caller, .. } => vec![*caller],
            VaultEvent::PauseCancelled { caller, .. } => vec![*caller],
            VaultEvent::UpgradeProposed { caller, .. } => vec![*caller],
            VaultEvent::UpgradeExecuted { caller, .. } => vec![*caller],
            VaultEvent::Upgraded { caller, .. } => vec![*caller],
            VaultEvent::UpgradeCancelled { caller, .. } => vec![*caller],
            VaultEvent::SweepProposed { caller, .. } => vec![*caller],
            VaultEvent::SweepExecuted { caller, .. } => vec![*caller],
            VaultEvent::Distribute { to, .. } => vec![*to],
            VaultEvent::SweepCancelled { caller, .. } => vec![*caller],
            VaultEvent::RequestIdPruned { caller, .. } => vec![*caller],
            VaultEvent::ReserveCapSet { caller, token, .. } => vec![*caller, *token],
        }
    }
}

/// One step that a call asks its surroundings to take.
#[derive(Debug, PartialEq, Eq)]
pub enum Action {
    /// Transfer `amount` of `token` from `from` to the vault.
    TransferIn { token: AddressKey, from: AddressKey, amount: i128 },
    /// Transfer `amount` of `token` from the vault to `to`.
    TransferOut { token: AddressKey, to: AddressKey, amount: i128 },
    /// Tell the settlement contract of a deduction.
    RecordDeduction { settlement: AddressKey, amount: i128, request_id: u64 },
    /// Replace the contract code.
    UpdateWasm { wasm_hash: [u8; 32] },
    /// Publish an event.
    Publish { event: VaultEvent },
}

} // verus!
