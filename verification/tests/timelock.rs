use callora_vault::timelock::saturating_deadline;
use callora_vault::{
    Action, AddressKey, CalloraVault, VaultError, VaultEvent, DEFAULT_TIMELOCK_SECONDS,
    MAX_TIMELOCK_SECONDS, MIN_TIMELOCK_SECONDS,
};
use soroban_sdk::{Env, Symbol};

const START: u64 = 1_700_000_000;

const OWNER: AddressKey = AddressKey { strkey: [1; 56] };
const USDC: AddressKey = AddressKey { strkey: [2; 56] };
const ADMIN: AddressKey = AddressKey { strkey: [3; 56] };
const RECIPIENT: AddressKey = AddressKey { strkey: [4; 56] };
const SETTLEMENT: AddressKey = AddressKey { strkey: [5; 56] };
const INTRUDER: AddressKey = AddressKey { strkey: [6; 56] };

/// A vault whose admin is not its owner.
fn setup() -> CalloraVault {
    let mut vault = CalloraVault::new();
    vault.init(OWNER, USDC, 0, OWNER, 1, None, 1000, SETTLEMENT).unwrap();
    vault.set_admin(OWNER, ADMIN).unwrap();
    vault.accept_admin().unwrap();
    vault
}

/// The events among the steps.
fn events(steps: Vec<Action>) -> Vec<VaultEvent> {
    let mut list = Vec::new();
    for step in steps {
        if let Action::Publish { event } = step {
            list.push(event);
        }
    }
    list
}

#[test]
fn default_window_is_48_hours() {
    let vault = setup();
    assert_eq!(vault.get_timelock_window(), DEFAULT_TIMELOCK_SECONDS);
    assert_eq!(DEFAULT_TIMELOCK_SECONDS, 172_800);
}

#[test]
fn set_window_updates_storage_and_emits_event() {
    let env = Env::default();
    let mut vault = setup();
    let steps = vault.set_timelock_window(ADMIN, MIN_TIMELOCK_SECONDS + 60).unwrap();
    assert_eq!(vault.get_timelock_window(), MIN_TIMELOCK_SECONDS + 60);

    let emitted = events(steps);
    let last = emitted.last().expect("expected event");
    assert_eq!(last.topic(&env), Symbol::new(&env, "tl_window_changed"));
}

#[test]
fn set_window_rejects_non_admin() {
    let mut vault = setup();
    let res = vault.set_timelock_window(INTRUDER, MIN_TIMELOCK_SECONDS + 60);
    assert!(res.is_err(), "non-admin must be rejected");
    assert_eq!(res.unwrap_err(), VaultError::Unauthorized);
}

#[test]
fn set_window_rejects_out_of_bounds_low() {
    let mut vault = setup();
    let res = vault.set_timelock_window(ADMIN, MIN_TIMELOCK_SECONDS - 1);
    assert_eq!(res.unwrap_err(), VaultError::InvalidTimelockWindow);
}

#[test]
fn set_window_rejects_zero() {
    let mut vault = setup();
    let res = vault.set_timelock_window(ADMIN, 0);
    assert_eq!(res.unwrap_err(), VaultError::InvalidTimelockWindow);
}

#[test]
fn set_window_rejects_out_of_bounds_high() {
    let mut vault = setup();
    let res = vault.set_timelock_window(ADMIN, MAX_TIMELOCK_SECONDS + 1);
    assert_eq!(res.unwrap_err(), VaultError::InvalidTimelockWindow);
}

#[test]
fn set_window_accepts_known_boundaries() {
    let mut vault = setup();
    assert!(vault.set_timelock_window(ADMIN, MIN_TIMELOCK_SECONDS).is_ok());
    assert!(vault.set_timelock_window(ADMIN, MAX_TIMELOCK_SECONDS).is_ok());
}

#[test]
fn propose_pause_stores_snapshot_and_deadline() {
    let mut vault = setup();
    vault.propose_pause(ADMIN, START).unwrap();
    let proposal = vault.get_pending_pause().expect("expected pending pause");
    assert_eq!(proposal.proposed_at, 1_700_000_000);
    assert_eq!(proposal.execute_after, 1_700_000_000 + DEFAULT_TIMELOCK_SECONDS);
    assert!(!vault.is_paused(), "vault must remain unpaused");
}

#[test]
fn execute_pause_fails_before_window() {
    let mut vault = setup();
    vault.propose_pause(ADMIN, START).unwrap();
    let res = vault.execute_pause(ADMIN, START + DEFAULT_TIMELOCK_SECONDS - 1);
    assert_eq!(res.unwrap_err(), VaultError::TimelockNotExpired);
    assert!(!vault.is_paused());
    assert!(vault.get_pending_pause().is_some());
}

#[test]
fn execute_pause_succeeds_at_boundary() {
    let mut vault = setup();
    vault.propose_pause(ADMIN, START).unwrap();
    vault.execute_pause(ADMIN, START + DEFAULT_TIMELOCK_SECONDS).unwrap();
    assert!(vault.is_paused(), "vault must be paused at boundary");
    assert!(vault.get_pending_pause().is_none(), "proposal must be consumed on success");
}

#[test]
fn execute_pause_succeeds_far_after_window() {
    let mut vault = setup();
    vault.propose_pause(ADMIN, START).unwrap();
    vault.execute_pause(ADMIN, START + DEFAULT_TIMELOCK_SECONDS * 10).unwrap();
    assert!(vault.is_paused());
    assert!(vault.get_pending_pause().is_none());
}

#[test]
fn execute_pause_without_proposal_fails() {
    let mut vault = setup();
    let res = vault.execute_pause(ADMIN, 2_000_000_000);
    assert_eq!(res.unwrap_err(), VaultError::ProposalNotFound);
}

#[test]
fn cancel_pause_removes_proposal() {
    let mut vault = setup();
    vault.propose_pause(ADMIN, START).unwrap();
    assert!(vault.get_pending_pause().is_some());
    vault.cancel_pause(ADMIN).unwrap();
    assert!(vault.get_pending_pause().is_none());
}

#[test]
fn pause_propose_replaces_and_restarts_timer() {
    let mut vault = setup();
    vault.propose_pause(ADMIN, START).unwrap();
    vault.propose_pause(ADMIN, 1_700_000_100).unwrap();
    let p = vault.get_pending_pause().unwrap();
    assert_eq!(p.proposed_at, 1_700_000_100);
    assert_eq!(p.execute_after, 1_700_000_100 + DEFAULT_TIMELOCK_SECONDS);
}

#[test]
fn propose_upgrade_stores_wasm_and_deadline() {
    let mut vault = setup();
    vault.propose_upgrade(ADMIN, [7u8; 32], START).unwrap();
    let p = vault.get_pending_upgrade().unwrap();
    assert_eq!(p.wasm_hash, [7u8; 32]);
    assert_eq!(p.proposed_at, 1_700_000_000);
    assert_eq!(p.execute_after, 1_700_000_000 + DEFAULT_TIMELOCK_SECONDS);
}

#[test]
fn execute_upgrade_fails_before_window() {
    let mut vault = setup();
    vault.propose_upgrade(ADMIN, [9u8; 32], START).unwrap();
    let res = vault.execute_upgrade(ADMIN, START + DEFAULT_TIMELOCK_SECONDS - 1);
    assert_eq!(res.unwrap_err(), VaultError::TimelockNotExpired);
    assert!(vault.get_pending_upgrade().is_some());
}

#[test]
fn execute_upgrade_succeeds_at_boundary_and_records_version() {
    let mut vault = setup();
    vault.propose_upgrade(ADMIN, [11u8; 32], START).unwrap();
    let now = START + DEFAULT_TIMELOCK_SECONDS;
    let steps = vault.execute_upgrade(ADMIN, now).unwrap();
    assert_eq!(vault.get_version(), Some([11u8; 32]));
    assert!(vault.get_pending_upgrade().is_none());
    assert_eq!(
        steps,
        vec![
            Action::UpdateWasm { wasm_hash: [11u8; 32] },
            Action::Publish {
                event: VaultEvent::UpgradeExecuted { caller: ADMIN, executed_at: now }
            },
            Action::Publish {
                event: VaultEvent::Upgraded { caller: ADMIN, wasm_hash: [11u8; 32] }
            },
        ]
    );
}

#[test]
fn cancel_upgrade_removes_proposal() {
    let mut vault = setup();
    vault.propose_upgrade(ADMIN, [13u8; 32], START).unwrap();
    vault.cancel_upgrade(ADMIN).unwrap();
    assert!(vault.get_pending_upgrade().is_none());
    assert!(vault.get_version().is_none());
}

#[test]
fn propose_sweep_stores_recipient_amount_and_deadline() {
    let mut vault = setup();
    vault.propose_sweep(ADMIN, RECIPIENT, 500, START).unwrap();
    let p = vault.get_pending_sweep().unwrap();
    assert_eq!(p.to, RECIPIENT);
    assert_eq!(p.amount, 500);
    assert_eq!(p.proposed_at, 1_700_000_000);
    assert_eq!(p.execute_after, 1_700_000_000 + DEFAULT_TIMELOCK_SECONDS);
}

#[test]
fn execute_sweep_fails_before_window() {
    let mut vault = setup();
    vault.propose_sweep(ADMIN, RECIPIENT, 500, START).unwrap();
    let res = vault.execute_sweep(ADMIN, START + DEFAULT_TIMELOCK_SECONDS - 1, 1000);
    assert_eq!(res.unwrap_err(), VaultError::TimelockNotExpired);
    assert!(vault.get_pending_sweep().is_some());
}

#[test]
fn execute_sweep_succeeds_at_boundary_and_transfers() {
    let mut vault = setup();
    vault.propose_sweep(ADMIN, RECIPIENT, 500, START).unwrap();
    let steps = vault.execute_sweep(ADMIN, START + DEFAULT_TIMELOCK_SECONDS, 1000).unwrap();
    assert!(vault.get_pending_sweep().is_none());
    let usdc = vault.get_usdc_token();
    assert_eq!(steps[0], Action::TransferOut { token: usdc, to: RECIPIENT, amount: 500 });
}

#[test]
fn execute_sweep_without_proposal_fails() {
    let mut vault = setup();
    let res = vault.execute_sweep(ADMIN, 2_000_000_000, 0);
    assert_eq!(res.unwrap_err(), VaultError::ProposalNotFound);
}

#[test]
fn propose_sweep_rejects_non_positive_amount() {
    let mut vault = setup();
    let zero = vault.propose_sweep(ADMIN, RECIPIENT, 0, START);
    assert_eq!(zero.unwrap_err(), VaultError::AmountNotPositive);
    let neg = vault.propose_sweep(ADMIN, RECIPIENT, -1, START);
    assert_eq!(neg.unwrap_err(), VaultError::AmountNotPositive);
}

#[test]
fn cancel_sweep_removes_proposal() {
    let mut vault = setup();
    vault.propose_sweep(ADMIN, RECIPIENT, 500, START).unwrap();
    vault.cancel_sweep(ADMIN).unwrap();
    assert!(vault.get_pending_sweep().is_none());
}

#[test]
fn non_admin_cannot_propose_pause() {
    let mut vault = setup();
    let res = vault.propose_pause(INTRUDER, START);
    assert_eq!(res.unwrap_err(), VaultError::Unauthorized);
}

#[test]
fn non_admin_cannot_execute_pause() {
    let mut vault = setup();
    vault.propose_pause(ADMIN, START).unwrap();
    let res = vault.execute_pause(INTRUDER, START + DEFAULT_TIMELOCK_SECONDS);
    assert_eq!(res.unwrap_err(), VaultError::Unauthorized);
}

#[test]
fn non_admin_cannot_cancel_pause() {
    let mut vault = setup();
    vault.propose_pause(ADMIN, START).unwrap();
    let res = vault.cancel_pause(INTRUDER);
    assert_eq!(res.unwrap_err(), VaultError::Unauthorized);
}

#[test]
fn owner_alone_cannot_timelock_pause() {
    let mut vault = setup();
    let res = vault.propose_pause(OWNER, START);
    assert_eq!(res.unwrap_err(), VaultError::Unauthorized);
}

#[test]
fn pause_and_upgrade_can_be_proposed_concurrently() {
    let mut vault = setup();
    vault.propose_pause(ADMIN, START).unwrap();
    vault.propose_upgrade(ADMIN, [42u8; 32], START).unwrap();
    assert!(vault.get_pending_pause().is_some());
    assert!(vault.get_pending_upgrade().is_some());
}

#[test]
fn executing_pause_does_not_affect_pending_upgrade() {
    let mut vault = setup();
    vault.propose_pause(ADMIN, START).unwrap();
    vault.propose_upgrade(ADMIN, [43u8; 32], START).unwrap();
    vault.execute_pause(ADMIN, START + DEFAULT_TIMELOCK_SECONDS).unwrap();
    assert!(vault.is_paused());
    assert!(vault.get_pending_upgrade().is_some());
}

#[test]
fn propose_pause_rejects_timestamp_overflow() {
    let mut vault = setup();
    let res = vault.propose_pause(ADMIN, u64::MAX);
    assert_eq!(res.unwrap_err(), VaultError::TimelockOverflow);
    assert!(vault.get_pending_pause().is_none());
}

#[test]
fn propose_upgrade_rejects_timestamp_overflow() {
    let mut vault = setup();
    let res = vault.propose_upgrade(ADMIN, [15u8; 32], u64::MAX);
    assert_eq!(res.unwrap_err(), VaultError::TimelockOverflow);
    assert!(vault.get_pending_upgrade().is_none());
}

#[test]
fn propose_sweep_rejects_timestamp_overflow() {
    let mut vault = setup();
    let res = vault.propose_sweep(ADMIN, RECIPIENT, 100, u64::MAX);
    assert_eq!(res.unwrap_err(), VaultError::TimelockOverflow);
    assert!(vault.get_pending_sweep().is_none());
}

#[test]
fn execute_pause_after_cancel_fails() {
    let mut vault = setup();
    vault.propose_pause(ADMIN, START).unwrap();
    vault.cancel_pause(ADMIN).unwrap();
    let res = vault.execute_pause(ADMIN, 2_000_000_000);
    assert_eq!(res.unwrap_err(), VaultError::ProposalNotFound);
}

#[test]
fn execute_pause_twice_fails_with_proposal_not_found() {
    let mut vault = setup();
    vault.propose_pause(ADMIN, START).unwrap();
    vault.execute_pause(ADMIN, START + DEFAULT_TIMELOCK_SECONDS).unwrap();
    let res = vault.execute_pause(ADMIN, 2_000_000_000);
    assert_eq!(res.unwrap_err(), VaultError::ProposalNotFound);
}

#[test]
fn cancel_pause_event_reports_whether_a_proposal_was_consumed() {
    let env = Env::default();
    let mut vault = setup();
    let topic = Symbol::new(&env, "pause_cancelled");
    let emitted = events(vault.cancel_pause(ADMIN).unwrap());
    let last = emitted.last().expect("expected cancel event");
    assert_eq!(last.topic(&env), topic);
    assert_eq!(*last, VaultEvent::PauseCancelled { caller: ADMIN, had_proposal: false });

    vault.propose_pause(ADMIN, START).unwrap();
    let emitted = events(vault.cancel_pause(ADMIN).unwrap());
    let last = emitted.last().expect("expected second cancel event");
    assert_eq!(last.topic(&env), Symbol::new(&env, "pause_cancelled"));
    assert_eq!(*last, VaultEvent::PauseCancelled { caller: ADMIN, had_proposal: true });
}

#[test]
fn saturating_deadline_handles_boundary() {
    assert_eq!(saturating_deadline(1_000, 0), Some(1_000));
    assert_eq!(saturating_deadline(100, 50), Some(150));
    assert_eq!(saturating_deadline(u64::MAX - 5, 5), Some(u64::MAX));
    assert_eq!(saturating_deadline(u64::MAX, 1), None);
    assert_eq!(saturating_deadline(u64::MAX - 1, 5), None);
}
