//! The topics under which the vault publishes its events.
//!
//! Each topic is made in one place only, so that its text cannot drift between
//! the calls that publish it. Some of them belong to events that no call of this
//! library publishes; they are kept stable for the consumers that follow them.
use soroban_sdk::{Env, Symbol};
use vstd::prelude::*;

use crate::host::symbol_text;

verus! {

/// Topic of the vault's initialization.
pub fn event_init(env: &Env) -> (topic: Symbol)
    ensures
        symbol_text(topic) == "init"@,
{
    proof {
        reveal_strlit("init");
    }
    Symbol::new(env, "init")
}

/// Topic of the nomination of a new admin.
pub fn event_admin_nominated(env: &Env) -> (topic: Symbol)
    ensures
        symbol_text(topic) == "admin_nominated"@,
{
    proof {
        reveal_strlit("admin_nominated");
    }
    Symbol::new(env, "admin_nominated")
}

/// Topic of a nominated admin taking the role.
pub fn event_admin_accepted(env: &Env) -> (topic: Symbol)
    ensures
        symbol_text(topic) == "admin_accepted"@,
{
    proof {
        reveal_strlit("admin_accepted");
    }
    Symbol::new(env, "admin_accepted")
}

/// Topic of a withdrawn admin nomination.
pub fn event_admin_cancelled(env: &Env) -> (topic: Symbol)
    ensures
        symbol_text(topic) == "admin_cancelled"@,
{
    proof {
        reveal_strlit("admin_cancelled");
    }
    Symbol::new(env, "admin_cancelled")
}

/// Topic of a change of the authorized caller of deductions.
pub fn event_set_authorized_caller(env: &Env) -> (topic: Symbol)
    ensures
        symbol_text(topic) == "set_authorized_caller"@,
{
    proof {
        reveal_strlit("set_authorized_caller");
    }
    Symbol::new(env, "set_authorized_caller")
}

/// Topic of a change of the deduction limit per call.
pub fn event_set_max_deduct(env: &Env) -> (topic: Symbol)
    ensures
        symbol_text(topic) == "set_max_deduct"@,
{
    proof {
        reveal_strlit("set_max_deduct");
    }
    Symbol::new(env, "set_max_deduct")
}

/// Topic of deposits and deductions being stopped.
pub fn event_vault_paused(env: &Env) -> (topic: Symbol)
    ensures
        symbol_text(topic) == "vault_paused"@,
{
    proof {
        reveal_strlit("vault_paused");
    }
    Symbol::new(env, "vault_paused")
}

/// Topic of deposits and deductions being resumed.
pub fn event_vault_unpaused(env: &Env) -> (topic: Symbol)
    ensures
        symbol_text(topic) == "vault_unpaused"@,
{
    proof {
        reveal_strlit("vault_unpaused");
    }
    Symbol::new(env, "vault_unpaused")
}

/// Topic of a deposit.
pub fn event_deposit(env: &Env) -> (topic: Symbol)
    ensures
        symbol_text(topic) == "deposit"@,
{
    proof {
        reveal_strlit("deposit");
    }
    Symbol::new(env, "deposit")
}

/// Topic of a deduction, single or batched.
pub fn event_deduct(env: &Env) -> (topic: Symbol)
    ensures
        symbol_text(topic) == "deduct"@,
{
    proof {
        reveal_strlit("deduct");
    }
    Symbol::new(env, "deduct")
}

/// Topic of the nomination of a new owner.
pub fn event_ownership_nominated(env: &Env) -> (topic: Symbol)
    ensures
        symbol_text(topic) == "ownership_nominated"@,
{
    proof {
        reveal_strlit("ownership_nominated");
    }
    Symbol::new(env, "ownership_nominated")
}

/// Topic of a nominated owner taking over.
pub fn event_ownership_accepted(env: &Env) -> (topic: Symbol)
    ensures
        symbol_text(topic) == "ownership_accepted"@,
{
    proof {
        reveal_strlit("ownership_accepted");
    }
    Symbol::new(env, "ownership_accepted")
}

/// Topic of a withdrawal by the owner.
pub fn event_withdraw(env: &Env) -> (topic: Symbol)
    ensures
        symbol_text(topic) == "withdraw"@,
{
    proof {
        reveal_strlit("withdraw");
    }
    Symbol::new(env, "withdraw")
}

/// Topic of a withdrawal by the owner to someone else.
pub fn event_withdraw_to(env: &Env) -> (topic: Symbol)
    ensures
        symbol_text(topic) == "withdraw_to"@,
{
    proof {
        reveal_strlit("withdraw_to");
    }
    Symbol::new(env, "withdraw_to")
}

/// Topic of a distribution by the admin.
pub fn event_distribute(env: &Env) -> (topic: Symbol)
    ensures
        symbol_text(topic) == "distribute"@,
{
    proof {
        reveal_strlit("distribute");
    }
    Symbol::new(env, "distribute")
}

/// Topic of a revenue pool being configured.
pub fn event_set_revenue_pool(env: &Env) -> (topic: Symbol)
    ensures
        symbol_text(topic) == "set_revenue_pool"@,
{
    proof {
        reveal_strlit("set_revenue_pool");
    }
    Symbol::new(env, "set_revenue_pool")
}

/// Topic of the revenue pool being cleared.
pub fn event_clear_revenue_pool(env: &Env) -> (topic: Symbol)
    ensures
        symbol_text(topic) == "clear_revenue_pool"@,
{
    proof {
        reveal_strlit("clear_revenue_pool");
    }
    Symbol::new(env, "clear_revenue_pool")
}

/// Topic of a change of the settlement contract.
pub fn event_set_settlement(env: &Env) -> (topic: Symbol)
    ensures
        symbol_text(topic) == "set_settlement"@,
{
    proof {
        reveal_strlit("set_settlement");
    }
    Symbol::new(env, "set_settlement")
}

/// Topic of metadata being set for an offering.
pub fn event_metadata_set(env: &Env) -> (topic: Symbol)
    ensures
        symbol_text(topic) == "metadata_set"@,
{
    proof {
        reveal_strlit("metadata_set");
    }
    Symbol::new(env, "metadata_set")
}

/// Topic of a price being set for an offering.
pub fn event_price_set(env: &Env) -> (topic: Symbol)
    ensures
        symbol_text(topic) == "price_set"@,
{
    proof {
        reveal_strlit("price_set");
    }
    Symbol::new(env, "price_set")
}

/// Topic of the price of an offering being removed.
pub fn event_price_removed(env: &Env) -> (topic: Symbol)
    ensures
        symbol_text(topic) == "price_removed"@,
{
    proof {
        reveal_strlit("price_removed");
    }
    Symbol::new(env, "price_removed")
}

/// Topic of the metadata of an offering being updated.
pub fn event_metadata_updated(env: &Env) -> (topic: Symbol)
    ensures
        symbol_text(topic) == "metadata_updated"@,
{
    proof {
        reveal_strlit("metadata_updated");
    }
    Symbol::new(env, "metadata_updated")
}

/// Topic of the metadata of an offering being removed.
pub fn event_metadata_removed(env: &Env) -> (topic: Symbol)
    ensures
        symbol_text(topic) == "metadata_removed"@,
{
    proof {
        reveal_strlit("metadata_removed");
    }
    Symbol::new(env, "metadata_removed")
}

/// Topic of the contract code having been replaced, for consumers that
/// follow a single event.
pub fn event_upgraded(env: &Env) -> (topic: Symbol)
    ensures
        symbol_text(topic) == "upgraded"@,
{
    proof {
        reveal_strlit("upgraded");
    }
    Symbol::new(env, "upgraded")
}

/// Topic published before the contract code is replaced. It pairs with
/// [`event_upgrade_completed`].
pub fn event_upgrade_started(env: &Env) -> (topic: Symbol)
    ensures
        symbol_text(topic) == "upgrade_started"@,
{
    proof {
        reveal_strlit("upgrade_started");
    }
    Symbol::new(env, "upgrade_started")
}

/// Topic published after the contract code has been replaced and its hash
/// recorded.
pub fn event_upgrade_completed(env: &Env) -> (topic: Symbol)
    ensures
        symbol_text(topic) == "upgrade_completed"@,
{
    proof {
        reveal_strlit("upgrade_completed");
    }
    Symbol::new(env, "upgrade_completed")
}

/// Topic of an address being allowed to deposit.
pub fn event_allowlist_add(env: &Env) -> (topic: Symbol)
    ensures
        symbol_text(topic) == "allowlist_add"@,
{
    proof {
        reveal_strlit("allowlist_add");
    }
    Symbol::new(env, "allowlist_add")
}

/// Topic of the list of allowed depositors being cleared.
pub fn event_allowlist_clear(env: &Env) -> (topic: Symbol)
    ensures
        symbol_text(topic) == "allowlist_clear"@,
{
    proof {
        reveal_strlit("allowlist_clear");
    }
    Symbol::new(env, "allowlist_clear")
}

/// Topic of a revenue pool being proposed.
pub fn event_revenue_pool_proposed(env: &Env) -> (topic: Symbol)
    ensures
        symbol_text(topic) == "revenue_pool_proposed"@,
{
    proof {
        reveal_strlit("revenue_pool_proposed");
    }
    Symbol::new(env, "revenue_pool_proposed")
}

/// Topic of a proposed revenue pool taking the role.
pub fn event_revenue_pool_accepted(env: &Env) -> (topic: Symbol)
    ensures
        symbol_text(topic) == "revenue_pool_accepted"@,
{
    proof {
        reveal_strlit("revenue_pool_accepted");
    }
    Symbol::new(env, "revenue_pool_accepted")
}

/// Topic of a withdrawn revenue pool proposal.
pub fn event_revenue_pool_cancelled(env: &Env) -> (topic: Symbol)
    ensures
        symbol_text(topic) == "revenue_pool_cancelled"@,
{
    proof {
        reveal_strlit("revenue_pool_cancelled");
    }
    Symbol::new(env, "revenue_pool_cancelled")
}

/// Topic of a processed-request marker being removed.
pub fn event_request_id_pruned(env: &Env) -> (topic: Symbol)
    ensures
        symbol_text(topic) == "request_id_pruned"@,
{
    proof {
        reveal_strlit("request_id_pruned");
    }
    Symbol::new(env, "request_id_pruned")
}

/// Topic of an emergency message of the admin.
pub fn event_admin_broadcast(env: &Env) -> (topic: Symbol)
    ensures
        symbol_text(topic) == "admin_broadcast"@,
{
    proof {
        reveal_strlit("admin_broadcast");
    }
    Symbol::new(env, "admin_broadcast")
}

/// Topic of a pause being proposed.
pub fn event_pause_proposed(env: &Env) -> (topic: Symbol)
    ensures
        symbol_text(topic) == "pause_proposed"@,
{
    proof {
        reveal_strlit("pause_proposed");
    }
    Symbol::new(env, "pause_proposed")
}

/// Topic of a proposed pause being executed.
pub fn event_pause_executed(env: &Env) -> (topic: Symbol)
    ensures
        symbol_text(topic) == "pause_executed"@,
{
    proof {
        reveal_strlit("pause_executed");
    }
    Symbol::new(env, "pause_executed")
}

/// Topic of a pause proposal being cancelled.
pub fn event_pause_cancelled(env: &Env) -> (topic: Symbol)
    ensures
        symbol_text(topic) == "pause_cancelled"@,
{
    proof {
        reveal_strlit("pause_cancelled");
    }
    Symbol::new(env, "pause_cancelled")
}

/// Topic of an upgrade being proposed.
pub fn event_upgrade_proposed(env: &Env) -> (topic: Symbol)
    ensures
        symbol_text(topic) == "upgrade_proposed"@,
{
    proof {
        reveal_strlit("upgrade_proposed");
    }
    Symbol::new(env, "upgrade_proposed")
}

/// Topic of a proposed upgrade being executed.
pub fn event_upgrade_executed(env: &Env) -> (topic: Symbol)
    ensures
        symbol_text(topic) == "upgrade_executed"@,
{
    proof {
        reveal_strlit("upgrade_executed");
    }
    Symbol::new(env, "upgrade_executed")
}

/// Topic of an upgrade proposal being cancelled.
pub fn event_upgrade_cancelled(env: &Env) -> (topic: Symbol)
    ensures
        symbol_text(topic) == "upgrade_cancelled"@,
{
    proof {
        reveal_strlit("upgrade_cancelled");
    }
    Symbol::new(env, "upgrade_cancelled")
}

/// Topic of a sweep being proposed.
pub fn event_sweep_proposed(env: &Env) -> (topic: Symbol)
    ensures
        symbol_text(topic) == "sweep_proposed"@,
{
    proof {
        reveal_strlit("sweep_proposed");
    }
    Symbol::new(env, "sweep_proposed")
}

/// Topic of a proposed sweep being executed.
pub fn event_sweep_executed(env: &Env) -> (topic: Symbol)
    ensures
        symbol_text(topic) == "sweep_executed"@,
{
    proof {
        reveal_strlit("sweep_executed");
    }
    Symbol::new(env, "sweep_executed")
}

/// Topic of a sweep proposal being cancelled.
pub fn event_sweep_cancelled(env: &Env) -> (topic: Symbol)
    ensures
        symbol_text(topic) == "sweep_cancelled"@,
{
    proof {
        reveal_strlit("sweep_cancelled");
    }
    Symbol::new(env, "sweep_cancelled")
}

/// Topic of a change of the timelock window.
pub fn event_timelock_window_changed(env: &Env) -> (topic: Symbol)
    ensures
        symbol_text(topic) == "tl_window_changed"@,
{
    proof {
        reveal_strlit("tl_window_changed");
    }
    Symbol::new(env, "tl_window_changed")
}

/// Topic of a rescue of funds by the admin.
pub fn event_rescue_funds(env: &Env) -> (topic: Symbol)
    ensures
        symbol_text(topic) == "rescue_funds"@,
{
    proof {
        reveal_strlit("rescue_funds");
    }
    Symbol::new(env, "rescue_funds")
}

/// Topic of the reserve cap of a token being set.
pub fn event_reserve_cap_set(env: &Env) -> (topic: Symbol)
    ensures
        symbol_text(topic) == "reserve_cap_set"@,
{
    proof {
        reveal_strlit("reserve_cap_set");
    }
    Symbol::new(env, "reserve_cap_set")
}

/// Topic of the idle balance being swept.
pub fn event_swept(env: &Env) -> (topic: Symbol)
    ensures
        symbol_text(topic) == "swept"@,
{
    proof {
        reveal_strlit("swept");
    }
    Symbol::new(env, "swept")
}

} // verus!
