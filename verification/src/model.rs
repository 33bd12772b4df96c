//! The vault as a state machine: for every call, the state that follows it and
//! the steps that it asks for, or the error with which it is refused.
use vstd::prelude::*;

use crate::address::AddressKey;
use crate::effects::{
    Action, BatchDeductPayload, DeductPayload, DepositPayload, InitPayload, VaultEvent,
};
use crate::errors::VaultError;
use crate::limits::cap_of;
use crate::timelock::{
    deadline, is_valid_window, PendingPause, PendingSweep, PendingUpgrade, DEFAULT_TIMELOCK_SECONDS,
    MAX_TIMELOCK_SECONDS, MIN_TIMELOCK_SECONDS,
};
use crate::vault::Settings;

verus! {

/// The state of the vault.
#[verifier::ext_equal]
pub struct VaultModel {
    /// What `init` has set up, if it has run.
    pub settings: Option<Settings>,
    /// Who has been nominated as admin and has not accepted yet.
    pub pending_admin: Option<AddressKey>,
    /// The configured timelock window.
    pub timelock_window: Option<u64>,
    /// The pause slot.
    pub pending_pause: Option<PendingPause>,
    /// The upgrade slot.
    pub pending_upgrade: Option<PendingUpgrade>,
    /// The sweep slot.
    pub pending_sweep: Option<PendingSweep>,
    /// The hash of the code that the last upgrade installed.
    pub version: Option<[u8; 32]>,
    /// Who may deposit besides the owner.
    pub depositors: Set<AddressKey>,
    /// The reserve caps that have been set.
    pub reserve_caps: Map<AddressKey, i128>,
    /// The ids of the requests that have been processed.
    pub processed: Set<Seq<char>>,
}

/// How a call ends: the next state and the steps to take, or a refusal.
pub type Outcome = Result<(VaultModel, Seq<Action>), VaultError>;

/// Whether a call that started in `before` has ended as `outcome` says. A
/// refused call leaves the state as it was.
pub open spec fn follows(
    outcome: Outcome,
    before: VaultModel,
    after: VaultModel,
    result: Result<Vec<Action>, VaultError>,
) -> bool {
    match outcome {
        Ok((next, actions)) => {
            &&& after == next
            &&& result matches Ok(steps)
            &&& steps@ == actions
        },
        Err(error) => {
            &&& after == before
            &&& result matches Err(reported)
            &&& reported == error
        },
    }
}

/// Why an amount is no positive amount, if it is none.
pub open spec fn positive_amount_refusal(amount: i128) -> Option<VaultError> {
    if amount <= 0 {
        Some(VaultError::AmountNotPositive)
    } else {
        None
    }
}

/// Why an amount cannot be deposited, if it cannot.
pub open spec fn deposit_amount_refusal(amount: i128, min_deposit: i128) -> Option<VaultError> {
    if amount <= 0 {
        Some(VaultError::AmountNotPositive)
    } else if amount < min_deposit {
        Some(VaultError::DepositBelowMinimum)
    } else {
        None
    }
}

/// Why an amount cannot be deducted, if it cannot.
pub open spec fn deduct_amount_refusal(
    amount: i128,
    min_amount: i128,
    max_deduct: i128,
) -> Option<VaultError> {
    if amount <= 0 {
        Some(VaultError::AmountNotPositive)
    } else if amount < min_amount {
        Some(VaultError::DeductBelowMinimum)
    } else if amount > max_deduct {
        Some(VaultError::ExceedsMaxDeduct)
    } else {
        None
    }
}

/// The marker of the item at position `i`. Items beyond the list carry none.
pub open spec fn marker_at(markers: Seq<Option<Seq<char>>>, i: int) -> Option<Seq<char>> {
    if 0 <= i < markers.len() {
        markers[i]
    } else {
        None
    }
}

/// What a batch comes to: the sum of its amounts, and the processed requests
/// with those of the batch; or the error of the first item that is refused.
pub open spec fn batch_sum(
    items: Seq<Option<(i128, u64)>>,
    markers: Seq<Option<Seq<char>>>,
    min_amount: i128,
    max_deduct: i128,
    processed: Set<Seq<char>>,
) -> Result<(int, Set<Seq<char>>), VaultError>
    decreases items.len(),
{
    if items.len() == 0 {
        Ok((0, processed))
    } else {
        match batch_sum(items.drop_last(), markers, min_amount, max_deduct, processed) {
            Err(error) => Err(error),
            Ok((sum, seen)) => match items.last() {
                None => Err(VaultError::MalformedItem),
                Some((amount, _)) => match deduct_amount_refusal(amount, min_amount, max_deduct) {
                    Some(error) => Err(error),
                    None => match marker_at(markers, items.len() - 1) {
                        Some(id) if seen.contains(id) => Err(VaultError::DuplicateRequestId),
                        marker => if sum + amount > i128::MAX {
                            Err(VaultError::Overflow)
                        } else {
                            Ok((sum + amount, with_marker(seen, marker)))
                        },
                    },
                },
            },
        }
    }
}

/// The processed requests, and with them the one that a marker names.
pub open spec fn with_marker(processed: Set<Seq<char>>, marker: Option<Seq<char>>) -> Set<
    Seq<char>,
> {
    match marker {
        Some(id) => processed.insert(id),
        None => processed,
    }
}

/// The records that a batch leaves with the settlement contract, one per item.
pub open spec fn batch_records(
    items: Seq<Option<(i128, u64)>>,
    settlement: AddressKey,
) -> Seq<Action> {
    items.map_values(
        |item: Option<(i128, u64)>|
            Action::RecordDeduction {
                settlement,
                amount: item->Some_0.0,
                request_id: item->Some_0.1,
            },
    )
}

/// The ids that pruning removes, in the order in which they are listed, each
/// once: those that have been processed.
pub open spec fn pruned_ids(processed: Set<Seq<char>>, ids: Seq<Option<Seq<char>>>) -> Seq<
    Seq<char>,
>
    decreases ids.len(),
{
    if ids.len() == 0 {
        Seq::empty()
    } else {
        let earlier = pruned_ids(processed, ids.drop_last());
        match ids.last() {
            Some(id) => if processed.contains(id) && !ids.drop_last().contains(Some(id)) {
                earlier.push(id)
            } else {
                earlier
            },
            None => earlier,
        }
    }
}

/// The markers that pruning leaves: those whose ids are not listed.
pub open spec fn kept_markers(processed: Set<Seq<char>>, ids: Seq<Option<Seq<char>>>) -> Set<
    Seq<char>,
> {
    processed.filter(|id: Seq<char>| !ids.contains(Some(id)))
}

/// Whether a proposal waits for as long as some window asks for.
pub open spec fn waits(proposed_at: u64, execute_after: u64) -> bool {
    MIN_TIMELOCK_SECONDS <= execute_after - proposed_at <= MAX_TIMELOCK_SECONDS
}

impl VaultModel {
    /// The state before `init` has run, with nothing stored at all.
    pub open spec fn empty() -> VaultModel {
        VaultModel {
            settings: None,
            pending_admin: None,
            timelock_window: None,
            pending_pause: None,
            pending_upgrade: None,
            pending_sweep: None,
            version: None,
            depositors: Set::empty(),
            reserve_caps: Map::empty(),
            processed: Set::empty(),
        }
    }

    /// Whether `init` has run.
    pub open spec fn initialized(self) -> bool {
        self.settings is Some
    }

    /// What holds of every state that the vault can reach: limits are positive,
    /// the timelock window is within its bounds, proposals wait as long as a
    /// window may ask for, a proposed sweep moves something, and there is
    /// nothing pending before `init` has run.
    pub open spec fn wf(self) -> bool {
        &&& self.initialized() ==> self.current().min_deposit > 0 && self.current().max_deduct > 0
        &&& self.timelock_window matches Some(window) ==> is_valid_window(window)
        &&& self.pending_pause matches Some(proposal) ==> waits(
            proposal.proposed_at,
            proposal.execute_after,
        )
        &&& self.pending_upgrade matches Some(proposal) ==> waits(
            proposal.proposed_at,
            proposal.execute_after,
        )
        &&& self.pending_sweep matches Some(proposal) ==> waits(
            proposal.proposed_at,
            proposal.execute_after,
        ) && proposal.amount > 0
        &&& forall|token: AddressKey|
            self.reserve_caps.contains_key(token) ==> #[trigger] self.reserve_caps[token] > 0
        &&& !self.initialized() ==> self.pending_admin is None && self.pending_pause is None
            && self.pending_upgrade is None && self.pending_sweep is None
    }

    /// What `init` has set up, as later calls have left it.
    pub open spec fn current(self) -> Settings {
        self.settings->Some_0
    }

    /// The timelock window that holds.
    pub open spec fn window(self) -> u64 {
        match self.timelock_window {
            Some(window) => window,
            None => DEFAULT_TIMELOCK_SECONDS,
        }
    }

    /// Whether deposits and deductions are stopped.
    pub open spec fn paused(self) -> bool {
        self.initialized() && self.current().paused
    }

    /// The state with other settings.
    pub open spec fn with(self, settings: Settings) -> VaultModel {
        VaultModel { settings: Some(settings), ..self }
    }

    /// Why `caller` is refused where only the owner may call, if they are.
    pub open spec fn owner_refusal(self, caller: AddressKey) -> Option<VaultError> {
        if !self.initialized() {
            Some(VaultError::NotInitialized)
        } else if caller != self.current().owner {
            Some(VaultError::Unauthorized)
        } else {
            None
        }
    }

    /// As [`VaultModel::owner_refusal`], for the calls that are aborted rather
    /// than answered with an error code.
    pub open spec fn owner_abort(self, caller: AddressKey) -> Option<VaultError> {
        if !self.initialized() {
            Some(VaultError::NotInitialized)
        } else if caller != self.current().owner {
            Some(VaultError::NotOwner)
        } else {
            None
        }
    }

    /// Why `caller` is refused where only the admin may call, if they are.
    pub open spec fn admin_refusal(self, caller: AddressKey) -> Option<VaultError> {
        if !self.initialized() {
            Some(VaultError::NotInitialized)
        } else if caller != self.current().admin {
            Some(VaultError::Unauthorized)
        } else {
            None
        }
    }

    /// Sets up the vault, once. The owner becomes the admin.
    pub open spec fn init(
        self,
        owner: AddressKey,
        usdc_token: AddressKey,
        initial_balance: i128,
        authorized_caller: AddressKey,
        min_deposit: i128,
        revenue_pool: Option<AddressKey>,
        max_deduct: i128,
        settlement: AddressKey,
    ) -> Outcome {
        if self.initialized() {
            Err(VaultError::AlreadyInitialized)
        } else if min_deposit <= 0 {
            Err(VaultError::MinDepositNotPositive)
        } else if max_deduct <= 0 {
            Err(VaultError::MaxDeductNotPositive)
        } else if min_deposit > max_deduct {
            Err(VaultError::MinDepositExceedsMaxDeduct)
        } else {
            let settings = Settings {
                owner,
                usdc_token,
                balance: initial_balance,
                authorized_caller,
                min_deposit,
                revenue_pool,
                max_deduct,
                settlement,
                paused: false,
                admin: owner,
            };
            let payload = InitPayload {
                owner,
                usdc_token,
                initial_balance,
                min_deposit,
                max_deduct,
                settlement,
            };
            Ok((self.with(settings), seq![Action::Publish { event: VaultEvent::Init { payload } }]))
        }
    }

    /// Why a deposit is refused, if it is.
    pub open spec fn deposit_refusal(self, caller: AddressKey, amount: i128) -> Option<VaultError> {
        let now = self.current();
        if !self.initialized() {
            Some(VaultError::NotInitialized)
        } else if now.paused {
            Some(VaultError::Paused)
        } else if deposit_amount_refusal(amount, now.min_deposit) is Some {
            deposit_amount_refusal(amount, now.min_deposit)
        } else if caller != now.owner && !self.depositors.contains(caller) {
            Some(VaultError::NotAuthorizedDepositor)
        } else if now.balance + amount > i128::MAX {
            Some(VaultError::Overflow)
        } else if now.balance + amount > cap_of(self.reserve_caps, now.usdc_token) {
            Some(VaultError::ExceedsReserveCap)
        } else {
            None
        }
    }

    /// Takes in `amount` from `caller` and tracks it.
    pub open spec fn deposit(self, caller: AddressKey, amount: i128) -> Outcome {
        match self.deposit_refusal(caller, amount) {
            Some(error) => Err(error),
            None => {
                let now = self.current();
                let balance = (now.balance + amount) as i128;
                let payload = DepositPayload { amount, balance_after: balance };
                Ok(
                    (
                        self.with(Settings { balance, ..now }),
                        seq![
                            Action::TransferIn { token: now.usdc_token, from: caller, amount },
                            Action::Publish { event: VaultEvent::Deposit { caller, payload } },
                        ],
                    ),
                )
            },
        }
    }

    /// Why `caller` may not deduct at all, if they may not.
    pub open spec fn deduct_caller_refusal(self, caller: AddressKey) -> Option<VaultError> {
        if !self.initialized() {
            Some(VaultError::NotInitialized)
        } else if caller != self.current().authorized_caller {
            Some(VaultError::NotAuthorizedCaller)
        } else if self.current().paused {
            Some(VaultError::Paused)
        } else {
            None
        }
    }

    /// Why a deduction is refused, if it is.
    pub open spec fn deduct_refusal(
        self,
        caller: AddressKey,
        amount: i128,
        marker: Option<Seq<char>>,
    ) -> Option<VaultError> {
        let now = self.current();
        if self.deduct_caller_refusal(caller) is Some {
            self.deduct_caller_refusal(caller)
        } else if deduct_amount_refusal(amount, now.min_deposit, now.max_deduct) is Some {
            deduct_amount_refusal(amount, now.min_deposit, now.max_deduct)
        } else if marker is Some && self.processed.contains(marker->Some_0) {
            Some(VaultError::DuplicateRequestId)
        } else if now.balance < amount {
            Some(VaultError::InsufficientBalance)
        } else {
            None
        }
    }

    /// Takes `amount` from the tracked balance and sends it to the settlement
    /// contract. A request that carries a marker is processed once only.
    pub open spec fn deduct(
        self,
        caller: AddressKey,
        amount: i128,
        request_id: u64,
        marker: Option<Seq<char>>,
    ) -> Outcome {
        match self.deduct_refusal(caller, amount, marker) {
            Some(error) => Err(error),
            None => {
                let now = self.current();
                let balance = (now.balance - amount) as i128;
                let settlement = now.settlement;
                let payload = DeductPayload {
                    amount,
                    request_id,
                    balance_after: balance,
                    destination: settlement,
                };
                Ok(
                    (
                        VaultModel {
                            settings: Some(Settings { balance, ..now }),
                            processed: with_marker(self.processed, marker),
                            ..self
                        },
                        seq![
                            Action::TransferOut { token: now.usdc_token, to: settlement, amount },
                            Action::RecordDeduction { settlement, amount, request_id },
                            Action::Publish { event: VaultEvent::Deduct { caller, payload } },
                        ],
                    ),
                )
            },
        }
    }

    /// Takes the sum of a batch from the tracked balance, all of it or nothing,
    /// and sends it to the settlement contract in one transfer.
    pub open spec fn batch_deduct(
        self,
        caller: AddressKey,
        items: Seq<Option<(i128, u64)>>,
        markers: Seq<Option<Seq<char>>>,
    ) -> Outcome {
        let now = self.current();
        if self.deduct_caller_refusal(caller) is Some {
            Err(self.deduct_caller_refusal(caller)->Some_0)
        } else {
            match batch_sum(items, markers, now.min_deposit, now.max_deduct, self.processed) {
                Err(error) => Err(error),
                Ok((sum, processed)) => if now.balance < sum {
                    Err(VaultError::InsufficientBalance)
                } else {
                    let total_amount = sum as i128;
                    let balance = (now.balance - sum) as i128;
                    let settlement = now.settlement;
                    let payload = BatchDeductPayload {
                        total_amount,
                        item_count: items.len() as u32,
                        balance_after: balance,
                        destination: settlement,
                    };
                    Ok(
                        (
                            VaultModel {
                                settings: Some(Settings { balance, ..now }),
                                processed,
                                ..self
                            },
                            seq![
                                Action::TransferOut {
                                    token: now.usdc_token,
                                    to: settlement,
                                    amount: total_amount,
                                },
                            ] + batch_records(items, settlement) + seq![
                                Action::Publish {
                                    event: VaultEvent::BatchDeduct { caller, payload },
                                },
                            ],
                        ),
                    )
                },
            }
        }
    }

    /// Makes the owner, who calls, the authorized caller of deductions.
    pub open spec fn set_authorized_caller(self, caller: AddressKey) -> Outcome {
        match self.owner_abort(caller) {
            Some(error) => Err(error),
            None => Ok(
                (
                    self.with(Settings { authorized_caller: caller, ..self.current() }),
                    seq![Action::Publish { event: VaultEvent::SetAuthorizedCaller { caller } }],
                ),
            ),
        }
    }

    /// Stops deposits and deductions at once.
    pub open spec fn pause(self, caller: AddressKey) -> Outcome {
        match self.owner_abort(caller) {
            Some(error) => Err(error),
            None => Ok(
                (
                    self.with(Settings { paused: true, ..self.current() }),
                    seq![Action::Publish { event: VaultEvent::VaultPaused { caller } }],
                ),
            ),
        }
    }

    /// Resumes deposits and deductions.
    pub open spec fn unpause(self, caller: AddressKey) -> Outcome {
        match self.owner_abort(caller) {
            Some(error) => Err(error),
            None => Ok(
                (
                    self.with(Settings { paused: false, ..self.current() }),
                    seq![Action::Publish { event: VaultEvent::VaultUnpaused { caller } }],
                ),
            ),
        }
    }

    /// Changes the deduction limit.
    pub open spec fn set_max_deduct(self, caller: AddressKey, max_deduct: i128) -> Outcome {
        match self.owner_abort(caller) {
            Some(error) => Err(error),
            None => if max_deduct <= 0 {
                Err(VaultError::MaxDeductNotPositive)
            } else {
                Ok(
                    (
                        self.with(Settings { max_deduct, ..self.current() }),
                        seq![
                            Action::Publish {
                                event: VaultEvent::SetMaxDeduct { caller, max_deduct },
                            },
                        ],
                    ),
                )
            },
        }
    }

    /// Changes the settlement contract.
    pub open spec fn set_settlement(self, caller: AddressKey, settlement: AddressKey) -> Outcome {
        match self.owner_abort(caller) {
            Some(error) => Err(error),
            None => Ok(
                (
                    self.with(Settings { settlement, ..self.current() }),
                    seq![
                        Action::Publish { event: VaultEvent::SetSettlement { caller, settlement } },
                    ],
                ),
            ),
        }
    }

    /// Sets the reserve cap of a token.
    pub open spec fn set_reserve_cap(
        self,
        caller: AddressKey,
        token: AddressKey,
        cap: i128,
    ) -> Outcome {
        match self.owner_refusal(caller) {
            Some(error) => Err(error),
            None => if cap <= 0 {
                Err(VaultError::AmountNotPositive)
            } else {
                let previous = cap_of(self.reserve_caps, token);
                Ok(
                    (
                        VaultModel { reserve_caps: self.reserve_caps.insert(token, cap), ..self },
                        seq![
                            Action::Publish {
                                event: VaultEvent::ReserveCapSet { caller, token, previous, cap },
                            },
                        ],
                    ),
                )
            },
        }
    }

    /// Changes the timelock window. Pending proposals keep their deadlines.
    pub open spec fn set_timelock_window(self, caller: AddressKey, window: u64) -> Outcome {
        match self.admin_refusal(caller) {
            Some(error) => Err(error),
            None => if !is_valid_window(window) {
                Err(VaultError::InvalidTimelockWindow)
            } else {
                Ok(
                    (
                        VaultModel { timelock_window: Some(window), ..self },
                        seq![
                            Action::Publish {
                                event: VaultEvent::TimelockWindowChanged {
                                    caller,
                                    stored: window,
                                    window,
                                },
                            },
                        ],
                    ),
                )
            },
        }
    }

    /// Nominates an admin.
    pub open spec fn set_admin(self, caller: AddressKey, new_admin: AddressKey) -> Outcome {
        match self.admin_refusal(caller) {
            Some(error) => Err(error),
            None => Ok(
                (
                    VaultModel { pending_admin: Some(new_admin), ..self },
                    seq![
                        Action::Publish { event: VaultEvent::AdminNominated { caller, new_admin } },
                    ],
                ),
            ),
        }
    }

    /// Gives the nominated admin the role.
    pub open spec fn accept_admin(self) -> Outcome {
        match self.pending_admin {
            None => Err(VaultError::NoAdminTransferPending),
            Some(new_admin) => if !self.initialized() {
                Err(VaultError::NotInitialized)
            } else {
                Ok(
                    (
                        VaultModel {
                            settings: Some(Settings { admin: new_admin, ..self.current() }),
                            pending_admin: None,
                            ..self
                        },
                        seq![
                            Action::Publish {
                                event: VaultEvent::AdminAccepted {
                                    old_admin: self.current().admin,
                                    new_admin,
                                },
                            },
                        ],
                    ),
                )
            },
        }
    }

    /// Proposes a pause, in place of an earlier proposal.
    pub open spec fn propose_pause(self, caller: AddressKey, now: u64) -> Outcome {
        match self.admin_refusal(caller) {
            Some(error) => Err(error),
            None => match deadline(now, self.window()) {
                None => Err(VaultError::TimelockOverflow),
                Some(execute_after) => Ok(
                    (
                        VaultModel {
                            pending_pause: Some(PendingPause { proposed_at: now, execute_after }),
                            ..self
                        },
                        seq![
                            Action::Publish {
                                event: VaultEvent::PauseProposed {
                                    caller,
                                    proposed_at: now,
                                    execute_after,
                                },
                            },
                        ],
                    ),
                ),
            },
        }
    }

    /// Executes the proposed pause, once its deadline has been reached.
    pub open spec fn execute_pause(self, caller: AddressKey, now: u64) -> Outcome {
        match self.admin_refusal(caller) {
            Some(error) => Err(error),
            None => match self.pending_pause {
                None => Err(VaultError::ProposalNotFound),
                Some(proposal) => if now < proposal.execute_after {
                    Err(VaultError::TimelockNotExpired)
                } else {
                    Ok(
                        (
                            VaultModel {
                                settings: Some(Settings { paused: true, ..self.current() }),
                                pending_pause: None,
                                ..self
                            },
                            seq![
                                Action::Publish {
                                    event: VaultEvent::PauseExecuted { caller, executed_at: now },
                                },
                                Action::Publish { event: VaultEvent::VaultPaused { caller } },
                            ],
                        ),
                    )
                },
            },
        }
    }

    /// Clears the pause slot, whether or not it holds a proposal.
    pub open spec fn cancel_pause(self, caller: AddressKey) -> Outcome {
        match self.admin_refusal(caller) {
            Some(error) => Err(error),
            None => Ok(
                (
                    VaultModel { pending_pause: None, ..self },
                    seq![
                        Action::Publish {
                            event: VaultEvent::PauseCancelled {
                                caller,
                                had_proposal: self.pending_pause is Some,
                            },
                        },
                    ],
                ),
            ),
        }
    }

    /// Proposes an upgrade, in place of an earlier proposal.
    pub open spec fn propose_upgrade(
        self,
        caller: AddressKey,
        wasm_hash: [u8; 32],
        now: u64,
    ) -> Outcome {
        match self.admin_refusal(caller) {
            Some(error) => Err(error),
            None => match deadline(now, self.window()) {
                None => Err(VaultError::TimelockOverflow),
                Some(execute_after) => Ok(
                    (
                        VaultModel {
                            pending_upgrade: Some(
                                PendingUpgrade { wasm_hash, proposed_at: now, execute_after },
                            ),
                            ..self
                        },
                        seq![
                            Action::Publish {
                                event: VaultEvent::UpgradeProposed {
                                    caller,
                                    wasm_hash,
                                    proposed_at: now,
                                    execute_after,
                                },
                            },
                        ],
                    ),
                ),
            },
        }
    }

    /// Executes the proposed upgrade, once its deadline has been reached.
    pub open spec fn execute_upgrade(self, caller: AddressKey, now: u64) -> Outcome {
        match self.admin_refusal(caller) {
            Some(error) => Err(error),
            None => match self.pending_upgrade {
                None => Err(VaultError::ProposalNotFound),
                Some(proposal) => if now < proposal.execute_after {
                    Err(VaultError::TimelockNotExpired)
                } else {
                    let wasm_hash = proposal.wasm_hash;
                    Ok(
                        (
                            VaultModel {
                                version: Some(wasm_hash),
                                pending_upgrade: None,
                                ..self
                            },
                            seq![
                                Action::UpdateWasm { wasm_hash },
                                Action::Publish {
                                    event: VaultEvent::UpgradeExecuted { caller, executed_at: now },
                                },
                                Action::Publish {
                                    event: VaultEvent::Upgraded { caller, wasm_hash },
                                },
                            ],
                        ),
                    )
                },
            },
        }
    }

    /// Clears the upgrade slot, whether or not it holds a proposal.
    pub open spec fn cancel_upgrade(self, caller: AddressKey) -> Outcome {
        match self.admin_refusal(caller) {
            Some(error) => Err(error),
            None => Ok(
                (
                    VaultModel { pending_upgrade: None, ..self },
                    seq![
                        Action::Publish {
                            event: VaultEvent::UpgradeCancelled {
                                caller,
                                had_proposal: self.pending_upgrade is Some,
                            },
                        },
                    ],
                ),
            ),
        }
    }

    /// Proposes a sweep, in place of an earlier proposal.
    pub open spec fn propose_sweep(
        self,
        caller: AddressKey,
        to: AddressKey,
        amount: i128,
        now: u64,
    ) -> Outcome {
        match self.admin_refusal(caller) {
            Some(error) => Err(error),
            None => if amount <= 0 {
                Err(VaultError::AmountNotPositive)
            } else {
                match deadline(now, self.window()) {
                    None => Err(VaultError::TimelockOverflow),
                    Some(execute_after) => Ok(
                        (
                            VaultModel {
                                pending_sweep: Some(
                                    PendingSweep { to, amount, proposed_at: now, execute_after },
                                ),
                                ..self
                            },
                            seq![
                                Action::Publish {
                                    event: VaultEvent::SweepProposed {
                                        caller,
                                        to,
                                        amount,
                                        proposed_at: now,
                                        execute_after,
                                    },
                                },
                            ],
                        ),
                    ),
                }
            },
        }
    }

    /// The proposed sweep, where `caller` may execute it by the clock, or why they
    /// may not.
    pub open spec fn due_sweep(self, caller: AddressKey, now: u64) -> Result<
        PendingSweep,
        VaultError,
    > {
        match self.admin_refusal(caller) {
            Some(error) => Err(error),
            None => match self.pending_sweep {
                None => Err(VaultError::ProposalNotFound),
                Some(proposal) => if now < proposal.execute_after {
                    Err(VaultError::TimelockNotExpired)
                } else {
                    Ok(proposal)
                },
            },
        }
    }

    /// Executes the proposed sweep, once its deadline has been reached and where
    /// the vault holds enough on the ledger.
    pub open spec fn execute_sweep(self, caller: AddressKey, now: u64, on_ledger: i128) -> Outcome {
        match self.due_sweep(caller, now) {
            Err(error) => Err(error),
            Ok(proposal) => if on_ledger < proposal.amount {
                Err(VaultError::InsufficientBalance)
            } else {
                let to = proposal.to;
                let amount = proposal.amount;
                Ok(
                    (
                        VaultModel { pending_sweep: None, ..self },
                        seq![
                            Action::TransferOut { token: self.current().usdc_token, to, amount },
                            Action::Publish {
                                event: VaultEvent::SweepExecuted {
                                    caller,
                                    to,
                                    amount,
                                    executed_at: now,
                                },
                            },
                            Action::Publish { event: VaultEvent::Distribute { to, amount } },
                        ],
                    ),
                )
            },
        }
    }

    /// Clears the sweep slot, whether or not it holds a proposal.
    pub open spec fn cancel_sweep(self, caller: AddressKey) -> Outcome {
        match self.admin_refusal(caller) {
            Some(error) => Err(error),
            None => Ok(
                (
                    VaultModel { pending_sweep: None, ..self },
                    seq![
                        Action::Publish {
                            event: VaultEvent::SweepCancelled {
                                caller,
                                had_proposal: self.pending_sweep is Some,
                            },
                        },
                    ],
                ),
            ),
        }
    }

    /// Removes the markers of the listed requests. Ids without a marker are
    /// passed over.
    pub open spec fn prune(
        self,
        caller: AddressKey,
        ids: Seq<Option<Seq<char>>>,
    ) -> Result<(VaultModel, Seq<Seq<char>>), VaultError> {
        match self.owner_refusal(caller) {
            Some(error) => Err(error),
            None => if ids.contains(None) {
                Err(VaultError::MalformedItem)
            } else {
                Ok(
                    (
                        VaultModel {
                            processed: kept_markers(self.processed, ids),
                            ..self
                        },
                        pruned_ids(self.processed, ids),
                    ),
                )
            },
        }
    }
}

} // verus!
