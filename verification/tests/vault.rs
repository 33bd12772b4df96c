use callora_vault::views::{compute_sweep_preview, SweepPreview};
use callora_vault::{
    Action, AddressKey, BatchDeductPayload, CalloraVault, DepositPayload, VaultError, VaultEvent,
    INSTANCE_BUMP_AMOUNT, INSTANCE_BUMP_THRESHOLD, MAX_TIMELOCK_SECONDS, MIN_TIMELOCK_SECONDS,
};
use soroban_sdk::{Env, IntoVal, Symbol, TryFromVal, Val};

const OWNER: AddressKey = AddressKey { strkey: [1; 56] };
const USDC: AddressKey = AddressKey { strkey: [2; 56] };
const CALLER: AddressKey = AddressKey { strkey: [3; 56] };
const POOL: AddressKey = AddressKey { strkey: [4; 56] };
const SETTLEMENT: AddressKey = AddressKey { strkey: [5; 56] };
const STRANGER: AddressKey = AddressKey { strkey: [6; 56] };

/// A vault with a balance of 1000 that takes deposits from 10 on and deductions
/// of 10 to 400.
fn vault() -> CalloraVault {
    let mut vault = CalloraVault::new();
    vault.init(OWNER, USDC, 1_000, CALLER, 10, Some(POOL), 400, SETTLEMENT).unwrap();
    vault
}

fn pairs(env: &Env, list: &[(i128, u64)]) -> soroban_sdk::Vec<(i128, u64)> {
    soroban_sdk::Vec::from_slice(env, list)
}

#[test]
fn lifetimes_are_thirty_and_sixty_days_of_ledgers() {
    assert_eq!(INSTANCE_BUMP_THRESHOLD, 518_400);
    assert_eq!(INSTANCE_BUMP_AMOUNT, 1_036_800);
}

#[test]
fn init_sets_everything_up() {
    let vault = vault();
    assert_eq!(vault.get_owner(), OWNER);
    assert_eq!(vault.get_admin(), Ok(OWNER));
    assert_eq!(vault.get_usdc_token(), USDC);
    assert_eq!(vault.balance(), 1_000);
    assert_eq!(vault.get_max_deduct(), 400);
    assert_eq!(vault.get_settlement(), SETTLEMENT);
    assert_eq!(vault.get_revenue_pool(), Some(POOL));
    assert!(!vault.is_paused());
    assert_eq!(vault.get_version(), None);
    assert_eq!(vault.get_reserve_cap(USDC), i128::MAX);
    assert!(!vault.is_authorized_depositor(OWNER));
}

#[test]
fn init_refuses_what_makes_no_sense() {
    let mut v = CalloraVault::new();
    let mut init = |min: i128, max: i128| v.init(OWNER, USDC, 0, CALLER, min, None, max, POOL);
    assert_eq!(init(0, 5).unwrap_err(), VaultError::MinDepositNotPositive);
    assert_eq!(init(-1, -1).unwrap_err(), VaultError::MinDepositNotPositive);
    assert_eq!(init(1, 0).unwrap_err(), VaultError::MaxDeductNotPositive);
    assert_eq!(init(6, 5).unwrap_err(), VaultError::MinDepositExceedsMaxDeduct);
    assert!(init(5, 5).is_ok());
    assert_eq!(init(5, 5).unwrap_err(), VaultError::AlreadyInitialized);
}

#[test]
fn nothing_works_before_init() {
    let env = Env::default();
    let mut v = CalloraVault::new();
    let none = Err(VaultError::NotInitialized);
    assert_eq!(v.deposit(OWNER, 10), none);
    assert_eq!(v.deduct(OWNER, 10, 1), none);
    assert_eq!(v.batch_deduct(OWNER, &pairs(&env, &[(10, 1)])), none);
    assert_eq!(v.set_authorized_caller(OWNER), none);
    assert_eq!(v.pause(OWNER), none);
    assert_eq!(v.unpause(OWNER), none);
    assert_eq!(v.set_max_deduct(OWNER, 10), none);
    assert_eq!(v.set_settlement(OWNER, POOL), none);
    assert_eq!(v.set_reserve_cap(OWNER, USDC, 10), none);
    assert_eq!(v.prune_processed_requests(OWNER, &soroban_sdk::Vec::new(&env)), none);
    assert_eq!(v.set_timelock_window(OWNER, MIN_TIMELOCK_SECONDS), none);
    assert_eq!(v.set_admin(OWNER, POOL), none);
    assert_eq!(v.accept_admin(), Err(VaultError::NoAdminTransferPending));
    assert_eq!(v.propose_pause(OWNER, 0), none);
    assert_eq!(v.execute_pause(OWNER, 0), none);
    assert_eq!(v.cancel_pause(OWNER), none);
    assert_eq!(v.propose_upgrade(OWNER, [0; 32], 0), none);
    assert_eq!(v.execute_upgrade(OWNER, 0), none);
    assert_eq!(v.cancel_upgrade(OWNER), none);
    assert_eq!(v.propose_sweep(OWNER, POOL, 1, 0), none);
    assert_eq!(v.execute_sweep(OWNER, 0, 1), none);
    assert_eq!(v.cancel_sweep(OWNER), none);
    assert_eq!(v.get_admin(), Err(VaultError::NotInitialized));
    assert_eq!(v.dry_run_sweep_idle_balance(5), Err(VaultError::NotInitialized));
    assert_eq!(v.get_max_deduct(), i128::MAX);
    assert_eq!(v.get_revenue_pool(), None);
    assert!(!v.is_paused());
}

#[test]
fn deposit_takes_in_and_tracks() {
    let mut v = vault();
    let steps = v.deposit(OWNER, 50).unwrap();
    assert_eq!(v.balance(), 1_050);
    let payload = DepositPayload { amount: 50, balance_after: 1_050 };
    assert_eq!(
        steps,
        vec![
            Action::TransferIn { token: USDC, from: OWNER, amount: 50 },
            Action::Publish { event: VaultEvent::Deposit { caller: OWNER, payload } },
        ]
    );
}

#[test]
fn deposit_refusals() {
    let mut v = vault();
    assert_eq!(v.deposit(OWNER, 0), Err(VaultError::AmountNotPositive));
    assert_eq!(v.deposit(OWNER, -7), Err(VaultError::AmountNotPositive));
    assert_eq!(v.deposit(OWNER, 9), Err(VaultError::DepositBelowMinimum));
    assert_eq!(v.deposit(STRANGER, 10), Err(VaultError::NotAuthorizedDepositor));
    assert_eq!(v.deposit(OWNER, i128::MAX), Err(VaultError::Overflow));
    assert_eq!(v.balance(), 1_000);
    v.depositors.push(STRANGER);
    assert!(v.is_authorized_depositor(STRANGER));
    assert!(v.deposit(STRANGER, 10).is_ok());
    assert_eq!(v.balance(), 1_010);
}

#[test]
fn deposits_stop_at_the_reserve_cap() {
    let mut v = vault();
    v.set_reserve_cap(OWNER, USDC, 1_100).unwrap();
    assert_eq!(v.get_reserve_cap(USDC), 1_100);
    assert_eq!(v.get_reserve_cap(POOL), i128::MAX);
    assert_eq!(v.deposit(OWNER, 101), Err(VaultError::ExceedsReserveCap));
    assert!(v.deposit(OWNER, 100).is_ok());
    assert_eq!(v.deposit(OWNER, 10), Err(VaultError::ExceedsReserveCap));
    // A cap on another token changes nothing.
    v.set_reserve_cap(OWNER, POOL, 1).unwrap();
    assert_eq!(v.get_reserve_cap(USDC), 1_100);
    // The largest cap is none at all.
    let steps = v.set_reserve_cap(OWNER, USDC, i128::MAX).unwrap();
    assert_eq!(
        steps,
        vec![Action::Publish {
            event: VaultEvent::ReserveCapSet {
                caller: OWNER,
                token: USDC,
                previous: 1_100,
                cap: i128::MAX
            }
        }]
    );
    assert!(v.deposit(OWNER, 10).is_ok());
    assert_eq!(v.set_reserve_cap(STRANGER, USDC, 5), Err(VaultError::Unauthorized));
    assert_eq!(v.set_reserve_cap(OWNER, USDC, 0), Err(VaultError::AmountNotPositive));
    assert_eq!(v.set_reserve_cap(OWNER, USDC, -1), Err(VaultError::AmountNotPositive));
}

#[test]
fn deduct_refusals() {
    let mut v = vault();
    assert_eq!(v.deduct(OWNER, 50, 1), Err(VaultError::NotAuthorizedCaller));
    assert_eq!(v.deduct(CALLER, 0, 1), Err(VaultError::AmountNotPositive));
    assert_eq!(v.deduct(CALLER, 9, 1), Err(VaultError::DeductBelowMinimum));
    assert_eq!(v.deduct(CALLER, 401, 1), Err(VaultError::ExceedsMaxDeduct));
    assert!(v.deduct(CALLER, 400, 1).is_ok());
    assert!(v.deduct(CALLER, 400, 1).is_ok());
    assert_eq!(v.balance(), 200);
    assert_eq!(v.deduct(CALLER, 201, 1), Err(VaultError::InsufficientBalance));
    assert!(v.deduct(CALLER, 200, 1).is_ok());
    assert_eq!(v.balance(), 0);
}

#[test]
fn batch_is_all_or_nothing() {
    let env = Env::default();
    let mut v = vault();
    let refused = [
        (vec![(100, 1), (0, 2)], VaultError::AmountNotPositive),
        (vec![(100, 1), (9, 2)], VaultError::DeductBelowMinimum),
        (vec![(100, 1), (401, 2), (0, 3)], VaultError::ExceedsMaxDeduct),
        (vec![(400, 1), (400, 2), (201, 3)], VaultError::InsufficientBalance),
    ];
    for (list, error) in refused {
        assert_eq!(v.batch_deduct(CALLER, &pairs(&env, &list)), Err(error));
        assert_eq!(v.balance(), 1_000);
    }
    let everything = pairs(&env, &[(400, 7), (400, 8), (200, 9)]);
    assert_eq!(v.batch_deduct(OWNER, &everything), Err(VaultError::NotAuthorizedCaller));
    let steps = v.batch_deduct(CALLER, &everything).unwrap();
    let payload = BatchDeductPayload {
        total_amount: 1_000,
        item_count: 3,
        balance_after: 0,
        destination: SETTLEMENT,
    };
    assert_eq!(
        steps,
        vec![
            Action::TransferOut { token: USDC, to: SETTLEMENT, amount: 1_000 },
            Action::RecordDeduction { settlement: SETTLEMENT, amount: 400, request_id: 7 },
            Action::RecordDeduction { settlement: SETTLEMENT, amount: 400, request_id: 8 },
            Action::RecordDeduction { settlement: SETTLEMENT, amount: 200, request_id: 9 },
            Action::Publish { event: VaultEvent::BatchDeduct { caller: CALLER, payload } },
        ]
    );
    assert_eq!(v.balance(), 0);
}

#[test]
fn empty_batch_moves_nothing() {
    let env = Env::default();
    let mut v = vault();
    let steps = v.batch_deduct(CALLER, &pairs(&env, &[])).unwrap();
    assert_eq!(steps.len(), 2);
    assert_eq!(steps[0], Action::TransferOut { token: USDC, to: SETTLEMENT, amount: 0 });
    assert_eq!(v.balance(), 1_000);
}

#[test]
fn batch_sum_that_does_not_fit_is_refused() {
    let mut v = CalloraVault::new();
    v.init(OWNER, USDC, i128::MAX, CALLER, 1, None, i128::MAX, SETTLEMENT).unwrap();
    let items = vec![Some((i128::MAX, 1)), Some((1, 2))];
    assert_eq!(v.batch_deduct_marked(CALLER, &items, &vec![]), Err(VaultError::Overflow));
}

/// The records among the steps, and what the steps move out of the vault.
fn records_and_outflow(steps: Vec<Action>) -> (Vec<(i128, u64)>, i128) {
    let mut records = Vec::new();
    let mut outflow = 0;
    for step in steps {
        match step {
            Action::RecordDeduction { amount, request_id, .. } => {
                records.push((amount, request_id))
            }
            Action::TransferOut { amount, .. } => outflow += amount,
            _ => {}
        }
    }
    (records, outflow)
}

#[test]
fn batch_equals_its_items_one_by_one() {
    let env = Env::default();
    let list = [(10, 1), (399, 2), (10, 1), (77, 3)];
    let mut batched = vault();
    let batch_steps = batched.batch_deduct(CALLER, &pairs(&env, &list)).unwrap();
    let mut single = vault();
    let mut single_steps = Vec::new();
    for (amount, request_id) in list {
        single_steps.extend(single.deduct(CALLER, amount, request_id).unwrap());
    }
    assert_eq!(batched.balance(), single.balance());
    assert_eq!(batched.balance(), 504);
    let batch = records_and_outflow(batch_steps);
    assert_eq!(batch, records_and_outflow(single_steps));
    assert_eq!(batch, (list.to_vec(), 496));
}

#[test]
fn batch_with_a_value_that_is_no_pair_is_refused() {
    let env = Env::default();
    let mut v = vault();
    let good: Val = (50i128, 1u64).into_val(&env);
    let number: Val = 5u32.into_val(&env);
    let triple: Val = (50i128, 1u64, 2u64).into_val(&env);
    let swapped: Val = (1u64, 50i128).into_val(&env);
    for bad in [number, triple, swapped] {
        let mut vals: soroban_sdk::Vec<Val> = soroban_sdk::Vec::new(&env);
        vals.push_back(good);
        vals.push_back(bad);
        let items =
            soroban_sdk::Vec::<(i128, u64)>::try_from_val(&env, &vals.to_val()).unwrap();
        assert_eq!(v.batch_deduct(CALLER, &items), Err(VaultError::MalformedItem));
        assert_eq!(v.balance(), 1_000);
    }
}

#[test]
fn marked_request_is_processed_once() {
    let env = Env::default();
    let mut v = vault();
    let id = Symbol::new(&env, "req_42");
    assert!(v.deduct_idempotent(CALLER, 50, 1, Some(id.clone())).is_ok());
    assert_eq!(v.balance(), 950);
    let again = v.deduct_idempotent(CALLER, 50, 1, Some(id.clone()));
    assert_eq!(again, Err(VaultError::DuplicateRequestId));
    assert_eq!(v.balance(), 950);
    // Another marker, and none at all.
    assert!(v.deduct_idempotent(CALLER, 50, 1, Some(Symbol::new(&env, "req_43"))).is_ok());
    assert!(v.deduct_idempotent(CALLER, 50, 1, None).is_ok());
    assert!(v.deduct_idempotent(CALLER, 50, 1, None).is_ok());
    assert_eq!(v.balance(), 800);
    // A refused request leaves no marker.
    let fresh = Symbol::new(&env, "req_44");
    let refused = v.deduct_idempotent(CALLER, 401, 1, Some(fresh.clone()));
    assert_eq!(refused, Err(VaultError::ExceedsMaxDeduct));
    assert!(v.deduct_idempotent(CALLER, 50, 1, Some(fresh)).is_ok());
    // Once pruned, the id can be used again.
    let ids = soroban_sdk::Vec::from_array(&env, [id.clone()]);
    assert_eq!(v.prune_processed_requests(STRANGER, &ids), Err(VaultError::Unauthorized));
    assert_eq!(v.prune_processed_requests(OWNER, &ids).unwrap().len(), 1);
    assert_eq!(v.prune_processed_requests(OWNER, &ids).unwrap().len(), 0);
    assert!(v.deduct_idempotent(CALLER, 50, 1, Some(id)).is_ok());
}

#[test]
fn batch_markers_must_be_new_and_different() {
    let env = Env::default();
    let mut v = vault();
    let a = Symbol::new(&env, "a");
    let b = Symbol::new(&env, "b");
    let items = pairs(&env, &[(10, 1), (10, 2), (10, 3)]);
    let twice = vec![Some(a.clone()), None, Some(a.clone())];
    let refused = v.batch_deduct_idempotent(CALLER, &items, &twice);
    assert_eq!(refused, Err(VaultError::DuplicateRequestId));
    assert_eq!(v.balance(), 1_000);
    assert!(v.batch_deduct_idempotent(CALLER, &items, &vec![Some(a.clone())]).is_ok());
    let refused = v.batch_deduct_idempotent(CALLER, &items, &vec![None, Some(a.clone())]);
    assert_eq!(refused, Err(VaultError::DuplicateRequestId));
    let refused = v.deduct_idempotent(CALLER, 10, 1, Some(a));
    assert_eq!(refused, Err(VaultError::DuplicateRequestId));
    assert!(v.batch_deduct_idempotent(CALLER, &items, &vec![None, Some(b)]).is_ok());
    assert_eq!(v.balance(), 940);
}

#[test]
fn pruning_refuses_a_value_that_is_no_symbol() {
    let env = Env::default();
    let mut v = vault();
    let id = Symbol::new(&env, "kept");
    v.deduct_idempotent(CALLER, 50, 1, Some(id.clone())).unwrap();
    let mut vals: soroban_sdk::Vec<Val> = soroban_sdk::Vec::new(&env);
    vals.push_back(id.to_val());
    vals.push_back(7u32.into_val(&env));
    let ids = soroban_sdk::Vec::<Symbol>::try_from_val(&env, &vals.to_val()).unwrap();
    assert_eq!(v.prune_processed_requests(OWNER, &ids), Err(VaultError::MalformedItem));
    let again = v.deduct_idempotent(CALLER, 50, 1, Some(id));
    assert_eq!(again, Err(VaultError::DuplicateRequestId));
}

#[test]
fn paused_vault_takes_and_gives_nothing() {
    let env = Env::default();
    let mut v = vault();
    assert_eq!(v.pause(STRANGER), Err(VaultError::NotOwner));
    v.pause(OWNER).unwrap();
    assert!(v.is_paused());
    assert_eq!(v.deposit(OWNER, 50), Err(VaultError::Paused));
    assert_eq!(v.deduct(CALLER, 50, 1), Err(VaultError::Paused));
    assert_eq!(v.batch_deduct(CALLER, &pairs(&env, &[(50, 1)])), Err(VaultError::Paused));
    // Everything else remains available.
    assert!(v.set_max_deduct(OWNER, 500).is_ok());
    assert!(v.set_settlement(OWNER, POOL).is_ok());
    assert!(v.set_authorized_caller(OWNER).is_ok());
    assert!(v.set_reserve_cap(OWNER, USDC, 5).is_ok());
    assert!(v.set_timelock_window(OWNER, MIN_TIMELOCK_SECONDS).is_ok());
    assert!(v.propose_sweep(OWNER, POOL, 5, 0).is_ok());
    assert!(v.execute_sweep(OWNER, MIN_TIMELOCK_SECONDS, 5).is_ok());
    assert_eq!(v.unpause(STRANGER), Err(VaultError::NotOwner));
    v.unpause(OWNER).unwrap();
    assert!(!v.is_paused());
    assert_eq!(v.get_max_deduct(), 500);
    assert_eq!(v.get_settlement(), POOL);
    assert!(v.deduct(OWNER, 50, 1).is_ok());
}

#[test]
fn owner_calls_refuse_strangers() {
    let mut v = vault();
    assert_eq!(v.set_authorized_caller(STRANGER), Err(VaultError::NotOwner));
    assert_eq!(v.set_max_deduct(STRANGER, 5), Err(VaultError::NotOwner));
    assert_eq!(v.set_settlement(STRANGER, POOL), Err(VaultError::NotOwner));
    assert_eq!(v.set_max_deduct(OWNER, 0), Err(VaultError::MaxDeductNotPositive));
    assert_eq!(v.require_owner(STRANGER), Err(VaultError::Unauthorized));
    assert_eq!(v.require_owner(OWNER), Ok(()));
    assert_eq!(v.require_admin(STRANGER), Err(VaultError::Unauthorized));
    assert_eq!(v.require_admin(OWNER), Ok(()));
    assert_eq!(v.get_max_deduct(), 400);
    assert_eq!(v.get_settlement(), SETTLEMENT);
}

#[test]
fn admin_changes_in_two_steps() {
    let mut v = vault();
    assert_eq!(v.accept_admin(), Err(VaultError::NoAdminTransferPending));
    v.set_admin(OWNER, STRANGER).unwrap();
    assert_eq!(v.get_admin(), Ok(OWNER));
    assert_eq!(v.set_admin(STRANGER, POOL), Err(VaultError::Unauthorized));
    v.accept_admin().unwrap();
    assert_eq!(v.get_admin(), Ok(STRANGER));
    assert_eq!(v.get_owner(), OWNER);
    assert_eq!(v.set_admin(OWNER, OWNER), Err(VaultError::Unauthorized));
    assert_eq!(v.accept_admin(), Err(VaultError::NoAdminTransferPending));
}

#[test]
fn changing_the_window_keeps_pending_deadlines() {
    let mut v = vault();
    v.set_timelock_window(OWNER, MAX_TIMELOCK_SECONDS).unwrap();
    v.propose_pause(OWNER, 100).unwrap();
    v.set_timelock_window(OWNER, MIN_TIMELOCK_SECONDS).unwrap();
    v.propose_upgrade(OWNER, [1; 32], 100).unwrap();
    let due = 100 + MAX_TIMELOCK_SECONDS;
    assert_eq!(v.get_pending_pause().unwrap().execute_after, due);
    assert_eq!(v.get_pending_upgrade().unwrap().execute_after, 100 + MIN_TIMELOCK_SECONDS);
    assert_eq!(v.execute_pause(OWNER, due - 1), Err(VaultError::TimelockNotExpired));
    assert!(v.execute_upgrade(OWNER, 100 + MIN_TIMELOCK_SECONDS).is_ok());
    assert!(v.execute_pause(OWNER, due).is_ok());
    let gone = Err(VaultError::ProposalNotFound);
    assert_eq!(v.execute_upgrade(OWNER, due), gone);
    assert_eq!(v.execute_pause(OWNER, due), gone);
}

#[test]
fn sweep_is_due_for_the_admin_at_its_deadline() {
    let mut v = vault();
    assert_eq!(v.due_sweep(OWNER, 0), Err(VaultError::ProposalNotFound));
    v.propose_sweep(OWNER, POOL, 300, 0).unwrap();
    let proposal = v.get_pending_sweep().unwrap();
    let due = proposal.execute_after;
    assert_eq!(v.due_sweep(STRANGER, due), Err(VaultError::Unauthorized));
    assert_eq!(v.due_sweep(OWNER, due - 1), Err(VaultError::TimelockNotExpired));
    assert_eq!(v.due_sweep(OWNER, due), Ok(proposal));
    assert_eq!(CalloraVault::new().due_sweep(OWNER, due), Err(VaultError::NotInitialized));
}

#[test]
fn duplicate_is_the_answer_before_the_balance_is_looked_at() {
    let mut v = vault();
    let id = Some(String::from("req_1"));
    v.deduct_marked(CALLER, 400, 1, id.clone()).unwrap();
    let duplicate = Err(VaultError::DuplicateRequestId);
    // The rest of the batch would exceed the balance.
    let items = vec![Some((400, 1)), Some((400, 2))];
    assert_eq!(v.batch_deduct_marked(CALLER, &items, &vec![None, id.clone()]), duplicate);
    // An amount that is out of order is named first.
    let items = vec![Some((401, 1))];
    let refused = v.batch_deduct_marked(CALLER, &items, &vec![id]);
    assert_eq!(refused, Err(VaultError::ExceedsMaxDeduct));
    assert_eq!(v.balance(), 600);
}

#[test]
fn sweep_needs_enough_on_the_ledger() {
    let mut v = vault();
    v.propose_sweep(OWNER, POOL, 300, 0).unwrap();
    let due = v.get_pending_sweep().unwrap().execute_after;
    assert_eq!(v.execute_sweep(OWNER, due, 299), Err(VaultError::InsufficientBalance));
    assert!(v.get_pending_sweep().is_some());
    assert!(v.execute_sweep(OWNER, due, 300).is_ok());
    assert_eq!(v.execute_sweep(OWNER, due, 300), Err(VaultError::ProposalNotFound));
    assert_eq!(v.balance(), 1_000);
}

#[test]
fn preview_reports_what_is_idle() {
    let v = vault();
    let preview = |on_ledger: i128| v.dry_run_sweep_idle_balance(on_ledger).unwrap();
    assert_eq!(
        preview(1_250),
        SweepPreview {
            on_ledger_balance: 1_250,
            tracked_balance: 1_000,
            idle_balance: 250,
            has_idle: true
        }
    );
    assert_eq!((preview(1_000).idle_balance, preview(1_000).has_idle), (0, false));
    assert_eq!((preview(900).idle_balance, preview(900).has_idle), (0, false));
    assert_eq!(compute_sweep_preview(&v, 1_001), Ok(preview(1_001)));
}

#[test]
fn sweeping_the_preview_leaves_nothing_idle() {
    let mut v = vault();
    let idle = v.dry_run_sweep_idle_balance(1_250).unwrap().idle_balance;
    v.propose_sweep(OWNER, POOL, idle, 0).unwrap();
    let due = v.get_pending_sweep().unwrap().execute_after;
    let steps = v.execute_sweep(OWNER, due, 1_250).unwrap();
    assert_eq!(steps[0], Action::TransferOut { token: USDC, to: POOL, amount: 250 });
    let after = v.dry_run_sweep_idle_balance(1_250 - 250).unwrap();
    assert_eq!((after.idle_balance, after.has_idle), (0, false));
}

#[test]
fn amount_checks_name_the_first_problem() {
    assert_eq!(CalloraVault::require_positive_amount(1), Ok(()));
    assert_eq!(CalloraVault::require_positive_amount(0), Err(VaultError::AmountNotPositive));
    let deposit = CalloraVault::require_valid_deposit_amount;
    assert_eq!(deposit(5, 5), Ok(()));
    assert_eq!(deposit(4, 5), Err(VaultError::DepositBelowMinimum));
    assert_eq!(deposit(-4, 5), Err(VaultError::AmountNotPositive));
    let deduct = CalloraVault::require_valid_deduct_amount;
    assert_eq!(deduct(5, 5, 5), Ok(()));
    assert_eq!(deduct(4, 5, 3), Err(VaultError::DeductBelowMinimum));
    assert_eq!(deduct(6, 5, 5), Err(VaultError::ExceedsMaxDeduct));
    assert_eq!(deduct(0, 5, 5), Err(VaultError::AmountNotPositive));
}

#[test]
fn aborting_refusals_have_a_message() {
    assert_eq!(VaultError::Paused.abort_message(), Some("Contract paused"));
    assert_eq!(VaultError::NotOwner.abort_message(), Some("Not owner"));
    assert_eq!(VaultError::InsufficientBalance.abort_message(), Some("insufficient balance"));
    assert_eq!(VaultError::TimelockNotExpired.abort_message(), None);
}
