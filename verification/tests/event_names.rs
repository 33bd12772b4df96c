use callora_vault::events::{
    event_admin_accepted, event_admin_broadcast, event_admin_cancelled, event_admin_nominated,
    event_allowlist_add, event_allowlist_clear, event_clear_revenue_pool, event_deduct,
    event_deposit, event_distribute, event_init, event_metadata_removed, event_metadata_set,
    event_metadata_updated, event_ownership_accepted, event_ownership_nominated,
    event_pause_cancelled, event_pause_executed, event_pause_proposed, event_price_removed,
    event_price_set, event_request_id_pruned, event_rescue_funds, event_reserve_cap_set,
    event_revenue_pool_accepted, event_revenue_pool_cancelled, event_revenue_pool_proposed,
    event_set_authorized_caller, event_set_max_deduct, event_set_revenue_pool,
    event_set_settlement, event_sweep_cancelled, event_sweep_executed, event_sweep_proposed,
    event_swept, event_timelock_window_changed, event_upgrade_cancelled, event_upgrade_completed,
    event_upgrade_executed, event_upgrade_proposed, event_upgrade_started, event_upgraded,
    event_vault_paused, event_vault_unpaused, event_withdraw, event_withdraw_to,
};
use soroban_sdk::{Env, Symbol};

#[test]
fn test_event_init_bytes() {
    let env = Env::default();
    let sym = event_init(&env);
    assert_eq!(sym, Symbol::new(&env, "init"));
}

#[test]
fn test_event_admin_nominated_bytes() {
    let env = Env::default();
    let sym = event_admin_nominated(&env);
    assert_eq!(sym, Symbol::new(&env, "admin_nominated"));
}

#[test]
fn test_event_admin_accepted_bytes() {
    let env = Env::default();
    let sym = event_admin_accepted(&env);
    assert_eq!(sym, Symbol::new(&env, "admin_accepted"));
}

#[test]
fn test_event_rescue_funds_bytes() {
    let env = Env::default();
    let sym = event_rescue_funds(&env);
    assert_eq!(sym, Symbol::new(&env, "rescue_funds"));
}

#[test]
fn test_event_admin_cancelled_bytes() {
    let env = Env::default();
    let sym = event_admin_cancelled(&env);
    assert_eq!(sym, Symbol::new(&env, "admin_cancelled"));
}

#[test]
fn test_event_set_authorized_caller_bytes() {
    let env = Env::default();
    let sym = event_set_authorized_caller(&env);
    assert_eq!(sym, Symbol::new(&env, "set_authorized_caller"));
}

#[test]
fn test_event_set_max_deduct_bytes() {
    let env = Env::default();
    let sym = event_set_max_deduct(&env);
    assert_eq!(sym, Symbol::new(&env, "set_max_deduct"));
}

#[test]
fn test_event_vault_paused_bytes() {
    let env = Env::default();
    let sym = event_vault_paused(&env);
    assert_eq!(sym, Symbol::new(&env, "vault_paused"));
}

#[test]
fn test_event_vault_unpaused_bytes() {
    let env = Env::default();
    let sym = event_vault_unpaused(&env);
    assert_eq!(sym, Symbol::new(&env, "vault_unpaused"));
}

#[test]
fn test_event_deposit_bytes() {
    let env = Env::default();
    let sym = event_deposit(&env);
    assert_eq!(sym, Symbol::new(&env, "deposit"));
}

#[test]
fn test_event_deduct_bytes() {
    let env = Env::default();
    let sym = event_deduct(&env);
    assert_eq!(sym, Symbol::new(&env, "deduct"));
}

#[test]
fn test_event_ownership_nominated_bytes() {
    let env = Env::default();
    let sym = event_ownership_nominated(&env);
    assert_eq!(sym, Symbol::new(&env, "ownership_nominated"));
}

#[test]
fn test_event_ownership_accepted_bytes() {
    let env = Env::default();
    let sym = event_ownership_accepted(&env);
    assert_eq!(sym, Symbol::new(&env, "ownership_accepted"));
}

#[test]
fn test_event_withdraw_bytes() {
    let env = Env::default();
    let sym = event_withdraw(&env);
    assert_eq!(sym, Symbol::new(&env, "withdraw"));
}

#[test]
fn test_event_withdraw_to_bytes() {
    let env = Env::default();
    let sym = event_withdraw_to(&env);
    assert_eq!(sym, Symbol::new(&env, "withdraw_to"));
}

#[test]
fn test_event_distribute_bytes() {
    let env = Env::default();
    let sym = event_distribute(&env);
    assert_eq!(sym, Symbol::new(&env, "distribute"));
}

#[test]
fn test_event_set_revenue_pool_bytes() {
    let env = Env::default();
    let sym = event_set_revenue_pool(&env);
    assert_eq!(sym, Symbol::new(&env, "set_revenue_pool"));
}

#[test]
fn test_event_clear_revenue_pool_bytes() {
    let env = Env::default();
    let sym = event_clear_revenue_pool(&env);
    assert_eq!(sym, Symbol::new(&env, "clear_revenue_pool"));
}

#[test]
fn test_event_set_settlement_bytes() {
    let env = Env::default();
    let sym = event_set_settlement(&env);
    assert_eq!(sym, Symbol::new(&env, "set_settlement"));
}

#[test]
fn test_event_metadata_set_bytes() {
    let env = Env::default();
    let sym = event_metadata_set(&env);
    assert_eq!(sym, Symbol::new(&env, "metadata_set"));
}

#[test]
fn test_event_price_set_bytes() {
    let env = Env::default();
    let sym = event_price_set(&env);
    assert_eq!(sym, Symbol::new(&env, "price_set"));
}

#[test]
fn test_event_price_removed_bytes() {
    let env = Env::default();
    let sym = event_price_removed(&env);
    assert_eq!(sym, Symbol::new(&env, "price_removed"));
}

#[test]
fn test_event_metadata_updated_bytes() {
    let env = Env::default();
    let sym = event_metadata_updated(&env);
    assert_eq!(sym, Symbol::new(&env, "metadata_updated"));
}

#[test]
fn test_event_metadata_removed_bytes() {
    let env = Env::default();
    let sym = event_metadata_removed(&env);
    assert_eq!(sym, Symbol::new(&env, "metadata_removed"));
}

#[test]
fn test_event_upgraded_bytes() {
    let env = Env::default();
    let sym = event_upgraded(&env);
    assert_eq!(sym, Symbol::new(&env, "upgraded"));
}

#[test]
fn test_event_upgrade_started_bytes() {
    let env = Env::default();
    let sym = event_upgrade_started(&env);
    assert_eq!(sym, Symbol::new(&env, "upgrade_started"));
}

#[test]
fn test_event_upgrade_completed_bytes() {
    let env = Env::default();
    let sym = event_upgrade_completed(&env);
    assert_eq!(sym, Symbol::new(&env, "upgrade_completed"));
}

#[test]
fn test_event_allowlist_add_bytes() {
    let env = Env::default();
    let sym = event_allowlist_add(&env);
    assert_eq!(sym, Symbol::new(&env, "allowlist_add"));
}

#[test]
fn test_event_allowlist_clear_bytes() {
    let env = Env::default();
    let sym = event_allowlist_clear(&env);
    assert_eq!(sym, Symbol::new(&env, "allowlist_clear"));
}

#[test]
fn test_event_revenue_pool_proposed_bytes() {
    let env = Env::default();
    let sym = event_revenue_pool_proposed(&env);
    assert_eq!(sym, Symbol::new(&env, "revenue_pool_proposed"));
}

#[test]
fn test_event_revenue_pool_accepted_bytes() {
    let env = Env::default();
    let sym = event_revenue_pool_accepted(&env);
    assert_eq!(sym, Symbol::new(&env, "revenue_pool_accepted"));
}

#[test]
fn test_event_revenue_pool_cancelled_bytes() {
    let env = Env::default();
    let sym = event_revenue_pool_cancelled(&env);
    assert_eq!(sym, Symbol::new(&env, "revenue_pool_cancelled"));
}

#[test]
fn test_event_request_id_pruned_bytes() {
    let env = Env::default();
    let sym = event_request_id_pruned(&env);
    assert_eq!(sym, Symbol::new(&env, "request_id_pruned"));
}

#[test]
fn test_event_admin_broadcast_bytes() {
    let env = Env::default();
    let sym = event_admin_broadcast(&env);
    assert_eq!(sym, Symbol::new(&env, "admin_broadcast"));
}

#[test]
fn test_event_reserve_cap_set_bytes() {
    let env = Env::default();
    let sym = event_reserve_cap_set(&env);
    assert_eq!(sym, Symbol::new(&env, "reserve_cap_set"));
}

#[test]
fn test_event_swept_bytes() {
    let env = Env::default();
    let sym = event_swept(&env);
    assert_eq!(sym, Symbol::new(&env, "swept"));
}

/// The names that the tests above leave out.
#[test]
fn remaining_event_names() {
    let env = Env::default();
    assert_eq!(event_pause_proposed(&env).to_string(), "pause_proposed");
    assert_eq!(event_pause_executed(&env).to_string(), "pause_executed");
    assert_eq!(event_pause_cancelled(&env).to_string(), "pause_cancelled");
    assert_eq!(event_upgrade_proposed(&env).to_string(), "upgrade_proposed");
    assert_eq!(event_upgrade_executed(&env).to_string(), "upgrade_executed");
    assert_eq!(event_upgrade_cancelled(&env).to_string(), "upgrade_cancelled");
    assert_eq!(event_sweep_proposed(&env).to_string(), "sweep_proposed");
    assert_eq!(event_sweep_executed(&env).to_string(), "sweep_executed");
    assert_eq!(event_sweep_cancelled(&env).to_string(), "sweep_cancelled");
    assert_eq!(event_timelock_window_changed(&env).to_string(), "tl_window_changed");
}
