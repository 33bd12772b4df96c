use callora_vault::{
    Action, AddressKey, BatchDeductPayload, CalloraVault, DeductPayload, DepositPayload,
    InitPayload, VaultError, VaultEvent, DEFAULT_TIMELOCK_SECONDS, MIN_TIMELOCK_SECONDS,
};
use soroban_sdk::{Env, Symbol};

/// A ledger around the vault: the clock, the token balances and the events.
struct World {
    env: Env,
    vault: CalloraVault,
    now: u64,
    balances: Vec<(AddressKey, i128)>,
    events: Vec<VaultEvent>,
    records: Vec<(i128, u64)>,
}

const VAULT: u8 = 1;
const OWNER: u8 = 2;
const USDC: u8 = 3;
const SETTLEMENT: u8 = 4;

fn addr(seed: u8) -> AddressKey {
    AddressKey { strkey: [seed; 56] }
}

impl World {
    fn balance_of(&self, who: AddressKey) -> i128 {
        self.balances.iter().filter(|entry| entry.0 == who).map(|entry| entry.1).sum()
    }

    fn mint(&mut self, who: AddressKey, amount: i128) {
        self.balances.push((who, amount));
    }

    fn transfer(&mut self, from: AddressKey, to: AddressKey, amount: i128) {
        assert!(amount >= 0);
        assert!(self.balance_of(from) >= amount);
        self.balances.push((from, -amount));
        self.balances.push((to, amount));
    }

    /// Takes the steps that a call has asked for.
    fn perform(&mut self, result: Result<Vec<Action>, VaultError>) {
        for action in result.unwrap() {
            match action {
                Action::TransferIn { token, from, amount } => {
                    assert_eq!(token, addr(USDC));
                    self.transfer(from, addr(VAULT), amount);
                }
                Action::TransferOut { token, to, amount } => {
                    assert_eq!(token, addr(USDC));
                    self.transfer(addr(VAULT), to, amount);
                }
                Action::RecordDeduction { settlement, amount, request_id } => {
                    assert_eq!(settlement, self.vault.get_settlement());
                    self.records.push((amount, request_id));
                }
                Action::UpdateWasm { .. } => {}
                Action::Publish { event } => self.events.push(event),
            }
        }
    }

    fn last_event(&self) -> &VaultEvent {
        self.events.last().expect("expected at least one event")
    }

    fn topic0(&self) -> Symbol {
        self.last_event().topic(&self.env)
    }

    fn emitted(&self, name: &str) -> bool {
        self.events.iter().any(|event| event.topic(&self.env) == Symbol::new(&self.env, name))
    }
}

fn empty_world() -> World {
    World {
        env: Env::default(),
        vault: CalloraVault::new(),
        now: 0,
        balances: Vec::new(),
        events: Vec::new(),
        records: Vec::new(),
    }
}

fn setup() -> World {
    let mut world = empty_world();
    let steps = world.vault.init(
        addr(OWNER),
        addr(USDC),
        0,
        addr(OWNER),
        1,
        None,
        1_000_000,
        addr(SETTLEMENT),
    );
    world.perform(steps);
    world
}

fn deposit(world: &mut World, amount: i128) {
    let steps = world.vault.deposit(addr(OWNER), amount);
    world.perform(steps);
}

#[test]
fn init_emits_init_event_with_correct_payload() {
    let mut world = empty_world();
    let steps = world.vault.init(
        addr(OWNER),
        addr(USDC),
        500,
        addr(OWNER),
        10,
        None,
        2_000,
        addr(SETTLEMENT),
    );
    world.perform(steps);

    assert_eq!(world.topic0(), Symbol::new(&world.env, "init"));
    assert_eq!(world.last_event().actors(), vec![addr(OWNER)]);
    match world.last_event() {
        VaultEvent::Init { payload } => {
            let InitPayload {
                owner,
                usdc_token,
                initial_balance,
                min_deposit,
                max_deduct,
                settlement,
            } = *payload;
            assert_eq!(initial_balance, 500);
            assert_eq!(min_deposit, 10);
            assert_eq!(max_deduct, 2_000);
            assert_eq!(settlement, addr(SETTLEMENT));
            assert_eq!(usdc_token, addr(USDC));
            assert_eq!(owner, addr(OWNER));
        }
        other => panic!("unexpected event {:?}", other),
    }
}

#[test]
fn deposit_emits_deposit_event() {
    let mut world = setup();
    world.mint(addr(OWNER), 200);
    deposit(&mut world, 200);

    assert_eq!(world.topic0(), Symbol::new(&world.env, "deposit"));
    let payload = DepositPayload { amount: 200, balance_after: 200 };
    assert_eq!(*world.last_event(), VaultEvent::Deposit { caller: addr(OWNER), payload });
}

#[test]
fn deposit_emits_event_with_incremental_balance() {
    let mut world = setup();
    world.mint(addr(OWNER), 500);
    deposit(&mut world, 100);
    deposit(&mut world, 150);
    deposit(&mut world, 250);

    assert_eq!(world.topic0(), Symbol::new(&world.env, "deposit"));
    let payload = DepositPayload { amount: 250, balance_after: 500 };
    assert_eq!(*world.last_event(), VaultEvent::Deposit { caller: addr(OWNER), payload });
}

#[test]
fn deposit_event_topic_includes_depositor() {
    let mut world = setup();
    world.mint(addr(OWNER), 50);
    deposit(&mut world, 50);
    assert_eq!(world.last_event().actors()[0], addr(OWNER));
}

#[test]
fn deduct_emits_deduct_event() {
    let mut world = setup();
    world.mint(addr(OWNER), 500);
    deposit(&mut world, 500);

    let steps = world.vault.deduct(addr(OWNER), 200, 42);
    world.perform(steps);

    assert_eq!(world.topic0(), Symbol::new(&world.env, "deduct"));
    let payload = DeductPayload {
        amount: 200,
        request_id: 42,
        balance_after: 300,
        destination: addr(SETTLEMENT),
    };
    assert_eq!(*world.last_event(), VaultEvent::Deduct { caller: addr(OWNER), payload });
    assert_eq!(world.balance_of(addr(SETTLEMENT)), 200);
    assert_eq!(world.records, vec![(200, 42)]);
}

#[test]
fn deduct_event_topic_includes_caller() {
    let mut world = setup();
    world.mint(addr(OWNER), 100);
    deposit(&mut world, 100);
    let steps = world.vault.deduct(addr(OWNER), 50, 1);
    world.perform(steps);
    assert_eq!(world.last_event().actors()[0], addr(OWNER));
}

#[test]
fn batch_deduct_emits_aggregate_deduct_event() {
    let mut world = setup();
    world.mint(addr(OWNER), 900);
    deposit(&mut world, 900);

    let items = soroban_sdk::Vec::from_array(
        &world.env,
        [(100i128, 1u64), (200i128, 2u64), (300i128, 3u64)],
    );
    let steps = world.vault.batch_deduct(addr(OWNER), &items);
    world.perform(steps);

    assert_eq!(world.topic0(), Symbol::new(&world.env, "deduct"));
    let payload = BatchDeductPayload {
        total_amount: 600,
        item_count: 3,
        balance_after: 300,
        destination: addr(SETTLEMENT),
    };
    assert_eq!(*world.last_event(), VaultEvent::BatchDeduct { caller: addr(OWNER), payload });
    assert_eq!(world.balance_of(addr(SETTLEMENT)), 600);
    assert_eq!(world.records, vec![(100, 1), (200, 2), (300, 3)]);
}

#[test]
fn pause_emits_vault_paused_event() {
    let mut world = setup();
    let steps = world.vault.pause(addr(OWNER));
    world.perform(steps);
    assert_eq!(world.topic0(), Symbol::new(&world.env, "vault_paused"));
    assert_eq!(world.last_event().actors()[0], addr(OWNER));
}

#[test]
fn unpause_emits_vault_unpaused_event() {
    let mut world = setup();
    let steps = world.vault.pause(addr(OWNER));
    world.perform(steps);
    let steps = world.vault.unpause(addr(OWNER));
    world.perform(steps);
    assert_eq!(world.topic0(), Symbol::new(&world.env, "vault_unpaused"));
    assert_eq!(world.last_event().actors()[0], addr(OWNER));
}

#[test]
fn set_authorized_caller_emits_event() {
    let mut world = setup();
    let steps = world.vault.set_authorized_caller(addr(OWNER));
    world.perform(steps);
    assert_eq!(world.topic0(), Symbol::new(&world.env, "set_authorized_caller"));
    assert_eq!(world.last_event().actors().len(), 1);
    assert_eq!(*world.last_event(), VaultEvent::SetAuthorizedCaller { caller: addr(OWNER) });
}

#[test]
fn set_max_deduct_emits_event() {
    let mut world = setup();
    let steps = world.vault.set_max_deduct(addr(OWNER), 5_000);
    world.perform(steps);
    assert_eq!(world.topic0(), Symbol::new(&world.env, "set_max_deduct"));
    let event = VaultEvent::SetMaxDeduct { caller: addr(OWNER), max_deduct: 5_000 };
    assert_eq!(*world.last_event(), event);
}

#[test]
fn set_settlement_emits_event() {
    let mut world = setup();
    let steps = world.vault.set_settlement(addr(OWNER), addr(40));
    world.perform(steps);
    assert_eq!(world.topic0(), Symbol::new(&world.env, "set_settlement"));
    let event = VaultEvent::SetSettlement { caller: addr(OWNER), settlement: addr(40) };
    assert_eq!(*world.last_event(), event);
}

#[test]
fn set_admin_emits_admin_nominated_event() {
    let mut world = setup();
    let steps = world.vault.set_admin(addr(OWNER), addr(50));
    world.perform(steps);
    assert_eq!(world.topic0(), Symbol::new(&world.env, "admin_nominated"));
    assert_eq!(world.last_event().actors(), vec![addr(OWNER), addr(50)]);
    let event = VaultEvent::AdminNominated { caller: addr(OWNER), new_admin: addr(50) };
    assert_eq!(*world.last_event(), event);
}

#[test]
fn accept_admin_emits_admin_accepted_event() {
    let mut world = setup();
    let steps = world.vault.set_admin(addr(OWNER), addr(50));
    world.perform(steps);
    let steps = world.vault.accept_admin();
    world.perform(steps);
    assert_eq!(world.topic0(), Symbol::new(&world.env, "admin_accepted"));
    assert_eq!(world.last_event().actors(), vec![addr(OWNER), addr(50)]);
    let event = VaultEvent::AdminAccepted { old_admin: addr(OWNER), new_admin: addr(50) };
    assert_eq!(*world.last_event(), event);
}

#[test]
fn admin_rotation_lifecycle_emits_both_events() {
    let mut world = setup();
    let steps = world.vault.set_admin(addr(OWNER), addr(50));
    world.perform(steps);
    let steps = world.vault.accept_admin();
    world.perform(steps);

    assert_eq!(world.vault.get_admin(), Ok(addr(50)));
    assert!(world.emitted("admin_nominated"), "admin_nominated event must have been emitted");
    assert!(world.emitted("admin_accepted"), "admin_accepted event must have been emitted");
    // The previous admin cannot set the admin again.
    assert_eq!(world.vault.set_admin(addr(OWNER), addr(51)), Err(VaultError::Unauthorized));
}

#[test]
fn propose_pause_emits_pause_proposed_event() {
    let mut world = setup();
    world.now = 1_000_000;
    let steps = world.vault.propose_pause(addr(OWNER), world.now);
    world.perform(steps);
    assert_eq!(world.topic0(), Symbol::new(&world.env, "pause_proposed"));
    assert_eq!(world.last_event().actors()[0], addr(OWNER));
    let event = VaultEvent::PauseProposed {
        caller: addr(OWNER),
        proposed_at: 1_000_000,
        execute_after: 1_000_000 + DEFAULT_TIMELOCK_SECONDS,
    };
    assert_eq!(*world.last_event(), event);
}

#[test]
fn execute_pause_emits_pause_executed_and_vault_paused() {
    let mut world = setup();
    world.now = 1_000_000;
    let steps = world.vault.propose_pause(addr(OWNER), world.now);
    world.perform(steps);
    world.now = 1_000_000 + DEFAULT_TIMELOCK_SECONDS;
    let steps = world.vault.execute_pause(addr(OWNER), world.now);
    world.perform(steps);
    assert!(world.emitted("pause_executed"), "pause_executed event must be emitted");
    assert!(world.emitted("vault_paused"), "vault_paused event must be emitted");
}

#[test]
fn cancel_pause_emits_pause_cancelled_with_proposal_flag() {
    let mut world = setup();
    world.now = 1_000_000;
    let steps = world.vault.cancel_pause(addr(OWNER));
    world.perform(steps);
    assert_eq!(world.topic0(), Symbol::new(&world.env, "pause_cancelled"));
    let event = VaultEvent::PauseCancelled { caller: addr(OWNER), had_proposal: false };
    assert_eq!(*world.last_event(), event);

    let steps = world.vault.propose_pause(addr(OWNER), world.now);
    world.perform(steps);
    let steps = world.vault.cancel_pause(addr(OWNER));
    world.perform(steps);
    assert_eq!(world.topic0(), Symbol::new(&world.env, "pause_cancelled"));
    let event = VaultEvent::PauseCancelled { caller: addr(OWNER), had_proposal: true };
    assert_eq!(*world.last_event(), event);
}

#[test]
fn propose_upgrade_emits_upgrade_proposed_event() {
    let mut world = setup();
    let steps = world.vault.propose_upgrade(addr(OWNER), [1u8; 32], world.now);
    world.perform(steps);
    assert_eq!(world.topic0(), Symbol::new(&world.env, "upgrade_proposed"));
}

#[test]
fn cancel_upgrade_emits_upgrade_cancelled_event() {
    let mut world = setup();
    let steps = world.vault.cancel_upgrade(addr(OWNER));
    world.perform(steps);
    assert_eq!(world.topic0(), Symbol::new(&world.env, "upgrade_cancelled"));
}

#[test]
fn propose_sweep_emits_sweep_proposed_event() {
    let mut world = setup();
    world.now = 1_000_000;
    let steps = world.vault.propose_sweep(addr(OWNER), addr(60), 300, world.now);
    world.perform(steps);
    assert_eq!(world.topic0(), Symbol::new(&world.env, "sweep_proposed"));
    let event = VaultEvent::SweepProposed {
        caller: addr(OWNER),
        to: addr(60),
        amount: 300,
        proposed_at: 1_000_000,
        execute_after: 1_000_000 + DEFAULT_TIMELOCK_SECONDS,
    };
    assert_eq!(*world.last_event(), event);
}

#[test]
fn cancel_sweep_emits_sweep_cancelled_event() {
    let mut world = setup();
    let steps = world.vault.cancel_sweep(addr(OWNER));
    world.perform(steps);
    assert_eq!(world.topic0(), Symbol::new(&world.env, "sweep_cancelled"));
}

#[test]
fn execute_sweep_emits_sweep_executed_and_distribute() {
    let mut world = setup();
    world.now = 1_000_000;
    world.mint(addr(VAULT), 500);
    let steps = world.vault.propose_sweep(addr(OWNER), addr(60), 300, world.now);
    world.perform(steps);
    world.now = 1_000_000 + DEFAULT_TIMELOCK_SECONDS;
    let on_ledger = world.balance_of(addr(VAULT));
    let steps = world.vault.execute_sweep(addr(OWNER), world.now, on_ledger);
    world.perform(steps);
    assert!(world.emitted("sweep_executed"), "sweep_executed event must be emitted");
    assert!(world.emitted("distribute"), "distribute event must be emitted");
    assert_eq!(world.last_event().actors(), vec![addr(60)]);
}

#[test]
fn set_timelock_window_emits_event() {
    let mut world = setup();
    let steps = world.vault.set_timelock_window(addr(OWNER), MIN_TIMELOCK_SECONDS);
    world.perform(steps);
    assert_eq!(world.topic0(), Symbol::new(&world.env, "tl_window_changed"));
    let event = VaultEvent::TimelockWindowChanged {
        caller: addr(OWNER),
        stored: MIN_TIMELOCK_SECONDS,
        window: MIN_TIMELOCK_SECONDS,
    };
    assert_eq!(*world.last_event(), event);
}

#[test]
fn set_reserve_cap_emits_event() {
    let mut world = setup();
    let steps = world.vault.set_reserve_cap(addr(OWNER), addr(USDC), 10_000);
    world.perform(steps);
    assert_eq!(world.topic0(), Symbol::new(&world.env, "reserve_cap_set"));
    assert_eq!(world.last_event().actors(), vec![addr(OWNER), addr(USDC)]);
    let event = VaultEvent::ReserveCapSet {
        caller: addr(OWNER),
        token: addr(USDC),
        previous: i128::MAX,
        cap: 10_000,
    };
    assert_eq!(*world.last_event(), event);
}

#[test]
fn prune_processed_requests_emits_per_id_event() {
    let mut world = setup();
    world.mint(addr(OWNER), 200);
    deposit(&mut world, 200);

    let empty: soroban_sdk::Vec<Symbol> = soroban_sdk::Vec::new(&world.env);
    let steps = world.vault.prune_processed_requests(addr(OWNER), &empty);
    world.perform(steps);
    assert!(!world.emitted("request_id_pruned"), "no pruned events expected for non-existent IDs");

    // Requests that carry a marker leave one, and each removal is reported.
    let first = Symbol::new(&world.env, "req_1");
    let second = Symbol::new(&world.env, "req_2");
    let steps = world.vault.deduct_idempotent(addr(OWNER), 10, 1, Some(first.clone()));
    world.perform(steps);
    let steps = world.vault.deduct_idempotent(addr(OWNER), 10, 2, Some(second.clone()));
    world.perform(steps);
    let unknown = Symbol::new(&world.env, "req_3");
    let ids = soroban_sdk::Vec::from_array(
        &world.env,
        [second.clone(), unknown, first.clone(), second.clone()],
    );
    let before = world.events.len();
    let steps = world.vault.prune_processed_requests(addr(OWNER), &ids);
    world.perform(steps);
    let pruned = &world.events[before..];
    assert_eq!(
        pruned,
        [
            VaultEvent::RequestIdPruned { caller: addr(OWNER), id: String::from("req_2") },
            VaultEvent::RequestIdPruned { caller: addr(OWNER), id: String::from("req_1") },
        ]
    );
    assert_eq!(world.topic0(), Symbol::new(&world.env, "request_id_pruned"));
}
