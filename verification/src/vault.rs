//! The vault: deposits, deductions, administration and timelocked proposals.
//!
//! Every call that changes the vault returns the steps that its surroundings
//! have to take, in order, or the error with which it is refused. Whoever calls
//! has proved who they are: `caller` is an authenticated address.
use soroban_sdk::Symbol;
use vstd::prelude::*;

use crate::address::{contains_address, AddressKey};
use crate::effects::{
    Action, BatchDeductPayload, DeductPayload, DepositPayload, InitPayload, VaultEvent,
};
use crate::errors::VaultError;
use crate::host::{
    deduct_items, read_deduct_items, read_symbol_texts, symbol_text, symbol_texts,
    symbol_to_string, text_of, texts_of,
};
use crate::limits::{cap_of, ReserveCaps};
use crate::model::{
    batch_records, batch_sum, deduct_amount_refusal, deposit_amount_refusal, follows, kept_markers,
    marker_at, positive_amount_refusal, pruned_ids, with_marker, VaultModel,
};
use crate::requests::ProcessedRequests;
use crate::timelock::{
    saturating_deadline, PendingPause, PendingSweep, PendingUpgrade, DEFAULT_TIMELOCK_SECONDS,
    MAX_TIMELOCK_SECONDS, MIN_TIMELOCK_SECONDS,
};
use crate::views::{compute_sweep_preview, preview_of, SweepPreview};

verus! {

/// What `init` sets up.
#[derive(Clone, Copy, Debug)]
pub struct Settings {
    /// Who owns the vault.
    pub owner: AddressKey,
    /// The token that the vault holds.
    pub usdc_token: AddressKey,
    /// The tracked balance.
    pub balance: i128,
    /// Who may deduct.
    pub authorized_caller: AddressKey,
    /// The least amount of a deposit or deduction.
    pub min_deposit: i128,
    /// Where revenue goes, if it goes anywhere.
    pub revenue_pool: Option<AddressKey>,
    /// The largest amount of a deduction.
    pub max_deduct: i128,
    /// Who receives what is deducted.
    pub settlement: AddressKey,
    /// Whether deposits and deductions are stopped.
    pub paused: bool,
    /// Who decides on proposals.
    pub admin: AddressKey,
}

/// The vault as it is stored.
#[derive(Debug)]
pub struct CalloraVault {
    /// What `init` has set up, if it has run.
    pub settings: Option<Settings>,
    /// Who has been nominated as admin and has not accepted yet.
    pub pending_admin: Option<AddressKey>,
    /// The configured timelock window.
    pub timelock_window: Option<u64>,
    /// The pause slot.
    pub pending_pause: Option<PendingPause>,
    /// The upgrade slot.
    pub pending_upgrade: Option<PendingUpgrade>,
    /// The sweep slot.
    pub pending_sweep: Option<PendingSweep>,
    /// The hash of the code that the last upgrade installed.
    pub version: Option<[u8; 32]>,
    /// Who may deposit besides the owner.
    pub depositors: Vec<AddressKey>,
    /// The reserve caps that have been set.
    pub reserve_caps: ReserveCaps,
    /// The requests that have been processed.
    pub processed: ProcessedRequests,
}

impl View for CalloraVault {
    type V = VaultModel;

    open spec fn view(&self) -> VaultModel {
        VaultModel {
            settings: self.settings,
            pending_admin: self.pending_admin,
            timelock_window: self.timelock_window,
            pending_pause: self.pending_pause,
            pending_upgrade: self.pending_upgrade,
            pending_sweep: self.pending_sweep,
            version: self.version,
            depositors: self.depositors@.to_set(),
            reserve_caps: self.reserve_caps@,
            processed: self.processed@,
        }
    }
}

/// The texts of the markers that the items of a batch carry.
pub open spec fn marker_texts(markers: Seq<Option<Symbol>>) -> Seq<Option<Seq<char>>> {
    markers.map_values(|marker: Option<Symbol>| marker_text(marker))
}

/// The text of a marker.
pub open spec fn marker_text(marker: Option<Symbol>) -> Option<Seq<char>> {
    match marker {
        Some(symbol) => Some(symbol_text(symbol)),
        None => None,
    }
}

/// Reads the texts of markers.
fn read_markers(markers: &Vec<Option<Symbol>>) -> (list: Vec<Option<String>>)
    ensures
        texts_of(list@) == marker_texts(markers@),
{
    let mut list: Vec<Option<String>> = Vec::new();
    let mut i: usize = 0;
    while i < markers.len()
        invariant
            i <= markers.len(),
            list.len() == i,
            forall|j: int|
                0 <= j < i ==> text_of(#[trigger] list@[j]) == marker_text(markers@[j]),
        decreases markers.len() - i,
    {
        let text: Option<String> = match &markers[i] {
            Some(symbol) => Some(symbol_to_string(symbol)),
            None => None,
        };
        list.push(text);
        i = i + 1;
    }
    assert(texts_of(list@) =~= marker_texts(markers@));
    list
}

/// Whether `result` says that a check has found `refusal`.
pub open spec fn reports(result: Result<(), VaultError>, refusal: Option<VaultError>) -> bool {
    match refusal {
        Some(error) => result == Err::<(), VaultError>(error),
        None => result is Ok,
    }
}

/// The steps of a call that only publishes an event.
fn announce(event: VaultEvent) -> (steps: Vec<Action>)
    ensures
        steps@ == seq![Action::Publish { event }],
{
    let ghost published = event;
    let steps = vec![Action::Publish { event }];
    assert(steps@ =~= seq![Action::Publish { event: published }]);
    steps
}

/// Whether the steps report the removal of these markers, in order.
pub open spec fn reports_pruned(
    steps: Seq<Action>,
    caller: AddressKey,
    ids: Seq<Seq<char>>,
) -> bool {
    &&& steps.len() == ids.len()
    &&& forall|i: int|
        0 <= i < ids.len() ==> (#[trigger] steps[i] matches Action::Publish { event }
            && event matches VaultEvent::RequestIdPruned { caller: owner, id } && owner == caller
            && id@ == ids[i])
}

/// Whether a call that started in `before` has pruned as `outcome` says, and
/// reports each marker that it has removed.
pub open spec fn prunes(
    outcome: Result<(VaultModel, Seq<Seq<char>>), VaultError>,
    before: VaultModel,
    after: VaultModel,
    caller: AddressKey,
    result: Result<Vec<Action>, VaultError>,
) -> bool {
    match outcome {
        Ok((next, ids)) => {
            &&& after == next
            &&& result matches Ok(steps)
            &&& reports_pruned(steps@, caller, ids)
        },
        Err(error) => {
            &&& after == before
            &&& result matches Err(reported)
            &&& reported == error
        },
    }
}

impl CalloraVault {
    /// A vault with nothing stored at all: `init` has not run.
    pub fn new() -> (vault: CalloraVault)
        ensures
            vault@ == VaultModel::empty(),
    {
        let vault = CalloraVault {
            settings: None,
            pending_admin: None,
            timelock_window: None,
            pending_pause: None,
            pending_upgrade: None,
            pending_sweep: None,
            version: None,
            depositors: Vec::new(),
            reserve_caps: ReserveCaps::new(),
            processed: ProcessedRequests::new(),
        };
        assert(vault@.depositors =~= Set::<AddressKey>::empty());
        vault
    }

    /// Checks that an amount is positive.
    pub fn require_positive_amount(amount: i128) -> (result: Result<(), VaultError>)
        ensures
            reports(result, positive_amount_refusal(amount)),
    {
        if amount <= 0 {
            return Err(VaultError::AmountNotPositive);
        }
        Ok(())
    }

    /// Checks that an amount can be deposited.
    pub fn require_valid_deposit_amount(amount: i128, min_deposit: i128) -> (result: Result<
        (),
        VaultError,
    >)
        ensures
            reports(result, deposit_amount_refusal(amount, min_deposit)),
    {
        match Self::require_positive_amount(amount) {
            Err(error) => return Err(error),
            Ok(()) => {},
        }
        if amount < min_deposit {
            return Err(VaultError::DepositBelowMinimum);
        }
        Ok(())
    }

    /// Checks that an amount can be deducted.
    pub fn require_valid_deduct_amount(
        amount: i128,
        min_amount: i128,
        max_deduct: i128,
    ) -> (result: Result<(), VaultError>)
        ensures
            reports(result, deduct_amount_refusal(amount, min_amount, max_deduct)),
    {
        match Self::require_positive_amount(amount) {
            Err(error) => return Err(error),
            Ok(()) => {},
        }
        if amount < min_amount {
            return Err(VaultError::DeductBelowMinimum);
        }
        if amount > max_deduct {
            return Err(VaultError::ExceedsMaxDeduct);
        }
        Ok(())
    }

    /// Sets up the vault. The owner becomes the admin.
    pub fn init(
        &mut self,
        owner: AddressKey,
        usdc_token: AddressKey,
        initial_balance: i128,
        authorized_caller: AddressKey,
        min_deposit: i128,
        revenue_pool: Option<AddressKey>,
        max_deduct: i128,
        settlement: AddressKey,
    ) -> (result: Result<Vec<Action>, VaultError>)
        ensures
            follows(
                old(self)@.init(
                    owner,
                    usdc_token,
                    initial_balance,
                    authorized_caller,
                    min_deposit,
                    revenue_pool,
                    max_deduct,
                    settlement,
                ),
                old(self)@,
                final(self)@,
                result,
            ),
    {
        if self.settings.is_some() {
            return Err(VaultError::AlreadyInitialized);
        }
        if min_deposit <= 0 {
            return Err(VaultError::MinDepositNotPositive);
        }
        if max_deduct <= 0 {
            return Err(VaultError::MaxDeductNotPositive);
        }
        if min_deposit > max_deduct {
            return Err(VaultError::MinDepositExceedsMaxDeduct);
        }
        self.settings = Some(
            Settings {
                owner,
                usdc_token,
                balance: initial_balance,
                authorized_caller,
                min_deposit,
                revenue_pool,
                max_deduct,
                settlement,
                paused: false,
                admin: owner,
            },
        );
        let payload = InitPayload {
            owner,
            usdc_token,
            initial_balance,
            min_deposit,
            max_deduct,
            settlement,
        };
        Ok(announce(VaultEvent::Init { payload }))
    }

    /// Takes in `amount` from `caller` and tracks it. Refused while the vault is
    /// paused, for anyone but the owner and the allowed depositors, and where the
    /// balance would exceed the reserve cap of the token.
    pub fn deposit(&mut self, caller: AddressKey, amount: i128) -> (result: Result<
        Vec<Action>,
        VaultError,
    >)
        ensures
            follows(old(self)@.deposit(caller, amount), old(self)@, final(self)@, result),
    {
        let now = match self.settings {
            Some(settings) => settings,
            None => return Err(VaultError::NotInitialized),
        };
        if now.paused {
            return Err(VaultError::Paused);
        }
        match Self::require_valid_deposit_amount(amount, now.min_deposit) {
            Err(error) => return Err(error),
            Ok(()) => {},
        }
        if caller != now.owner {
            if !self.is_authorized_depositor(caller) {
                return Err(VaultError::NotAuthorizedDepositor);
            }
        }
        let balance: i128 = match now.balance.checked_add(amount) {
            Some(balance) => balance,
            None => return Err(VaultError::Overflow),
        };
        if balance > self.reserve_caps.get(now.usdc_token) {
            return Err(VaultError::ExceedsReserveCap);
        }
        self.settings = Some(Settings { balance, ..now });
        let payload = DepositPayload { amount, balance_after: balance };
        Ok(
            vec![
                Action::TransferIn { token: now.usdc_token, from: caller, amount },
                Action::Publish { event: VaultEvent::Deposit { caller, payload } },
            ],
        )
    }

    /// Checks that `caller` may deduct, and returns the settings.
    fn require_deduct_caller(&self, caller: AddressKey) -> (result: Result<Settings, VaultError>)
        ensures
            match self@.deduct_caller_refusal(caller) {
                Some(error) => result == Err::<Settings, VaultError>(error),
                None => result == Ok::<Settings, VaultError>(self@.current()),
            },
    {
        let now = match self.settings {
            Some(settings) => settings,
            None => return Err(VaultError::NotInitialized),
        };
        if caller != now.authorized_caller {
            return Err(VaultError::NotAuthorizedCaller);
        }
        if now.paused {
            return Err(VaultError::Paused);
        }
        Ok(now)
    }

    /// Takes `amount` from the tracked balance and sends it to the settlement
    /// contract. Such a request can be repeated: it leaves no marker.
    pub fn deduct(&mut self, caller: AddressKey, amount: i128, request_id: u64) -> (result: Result<
        Vec<Action>,
        VaultError,
    >)
        ensures
            follows(
                old(self)@.deduct(caller, amount, request_id, None),
                old(self)@,
                final(self)@,
                result,
            ),
    {
        self.deduct_marked(caller, amount, request_id, None)
    }

    /// As [`CalloraVault::deduct`]. A request that carries a marker is processed
    /// once: another one with the same marker is refused until it is pruned.
    pub fn deduct_idempotent(
        &mut self,
        caller: AddressKey,
        amount: i128,
        request_id: u64,
        marker: Option<Symbol>,
    ) -> (result: Result<Vec<Action>, VaultError>)
        ensures
            follows(
                old(self)@.deduct(caller, amount, request_id, marker_text(marker)),
                old(self)@,
                final(self)@,
                result,
            ),
    {
        let text: Option<String> = match &marker {
            Some(symbol) => Some(symbol_to_string(symbol)),
            None => None,
        };
        self.deduct_marked(caller, amount, request_id, text)
    }

    /// As [`CalloraVault::deduct_idempotent`], with the text of the marker.
    pub fn deduct_marked(
        &mut self,
        caller: AddressKey,
        amount: i128,
        request_id: u64,
        marker: Option<String>,
    ) -> (result: Result<Vec<Action>, VaultError>)
        ensures
            follows(
                old(self)@.deduct(caller, amount, request_id, text_of(marker)),
                old(self)@,
                final(self)@,
                result,
            ),
    {
        let now = match self.require_deduct_caller(caller) {
            Ok(settings) => settings,
            Err(error) => return Err(error),
        };
        match Self::require_valid_deduct_amount(amount, now.min_deposit, now.max_deduct) {
            Err(error) => return Err(error),
            Ok(()) => {},
        }
        match &marker {
            Some(text) => {
                if self.processed.contains(text) {
                    return Err(VaultError::DuplicateRequestId);
                }
            },
            None => {},
        }
        if now.balance < amount {
            return Err(VaultError::InsufficientBalance);
        }
        let balance: i128 = now.balance - amount;
        self.settings = Some(Settings { balance, ..now });
        match marker {
            Some(text) => {
                self.processed.insert(text);
            },
            None => {},
        }
        let settlement = now.settlement;
        let payload = DeductPayload {
            amount,
            request_id,
            balance_after: balance,
            destination: settlement,
        };
        Ok(
            vec![
                Action::TransferOut { token: now.usdc_token, to: settlement, amount },
                Action::RecordDeduction { settlement, amount, request_id },
                Action::Publish { event: VaultEvent::Deduct { caller, payload } },
            ],
        )
    }

    /// Takes the sum of a batch from the tracked balance, all of it or nothing,
    /// and sends it to the settlement contract in one transfer. The items leave
    /// no markers.
    pub fn batch_deduct(
        &mut self,
        caller: AddressKey,
        items: &soroban_sdk::Vec<(i128, u64)>,
    ) -> (result: Result<Vec<Action>, VaultError>)
        ensures
            follows(
                old(self)@.batch_deduct(caller, deduct_items(*items), Seq::empty()),
                old(self)@,
                final(self)@,
                result,
            ),
            deduct_items(*items).len() <= u32::MAX,
    {
        let unmarked: Vec<Option<String>> = Vec::new();
        assert(texts_of(unmarked@) =~= Seq::empty());
        self.batch_deduct_marked(caller, &read_deduct_items(items), &unmarked)
    }

    /// As [`CalloraVault::batch_deduct`]. The marker at a position belongs to the
    /// item at that position; items beyond the list of markers carry none. A
    /// marker that has been processed, or stands in the batch twice, refuses the
    /// batch.
    pub fn batch_deduct_idempotent(
        &mut self,
        caller: AddressKey,
        items: &soroban_sdk::Vec<(i128, u64)>,
        markers: &Vec<Option<Symbol>>,
    ) -> (result: Result<Vec<Action>, VaultError>)
        ensures
            follows(
                old(self)@.batch_deduct(caller, deduct_items(*items), marker_texts(markers@)),
                old(self)@,
                final(self)@,
                result,
            ),
            deduct_items(*items).len() <= u32::MAX,
    {
        self.batch_deduct_marked(caller, &read_deduct_items(items), &read_markers(markers))
    }

    /// As [`CalloraVault::batch_deduct_idempotent`], with the items as plain
    /// values and the texts of the markers. `None` among the items stands for a
    /// value that is no pair of an amount and a request id.
    pub fn batch_deduct_marked(
        &mut self,
        caller: AddressKey,
        items: &Vec<Option<(i128, u64)>>,
        markers: &Vec<Option<String>>,
    ) -> (result: Result<Vec<Action>, VaultError>)
        requires
            items@.len() <= u32::MAX,
        ensures
            follows(
                old(self)@.batch_deduct(caller, items@, texts_of(markers@)),
                old(self)@,
                final(self)@,
                result,
            ),
    {
        let now = match self.require_deduct_caller(caller) {
            Ok(settings) => settings,
            Err(error) => return Err(error),
        };
        let len: usize = items.len();
        let mut total_amount: i128 = 0;
        let mut seen: ProcessedRequests = ProcessedRequests::new();
        let mut steps: Vec<Action> = Vec::new();
        let ghost texts = texts_of(markers@);
        let settlement = now.settlement;
        steps.push(Action::TransferOut { token: now.usdc_token, to: settlement, amount: 0 });
        let mut i: usize = 0;
        proof {
            assert(items@.take(0) =~= Seq::empty());
            assert(self.processed@.union(seen@) =~= self.processed@);
        }
        while i < len
            invariant
                i <= len,
                len == items@.len(),
                texts == texts_of(markers@),
                *self == *old(self),
                self@.deduct_caller_refusal(caller) is None,
                now == self@.current(),
                settlement == now.settlement,
                total_amount >= 0,
                batch_sum(
                    items@.take(i as int),
                    texts,
                    now.min_deposit,
                    now.max_deduct,
                    self.processed@,
                ) == Ok::<(int, Set<Seq<char>>), VaultError>(
                    (total_amount as int, self.processed@.union(seen@)),
                ),
                steps@.len() == i + 1,
                steps@.skip(1) == batch_records(items@.take(i as int), settlement),
            decreases len - i,
        {
            let ghost before = self.processed@.union(seen@);
            let ghost prefix = items@.take(i + 1);
            proof {
                assert(prefix.drop_last() =~= items@.take(i as int));
                assert(prefix.last() == items@[i as int]);
                if batch_sum(
                    prefix,
                    texts,
                    now.min_deposit,
                    now.max_deduct,
                    self.processed@,
                ) is Err {
                    lemma_batch_refused(items@, texts, now, self.processed@, i + 1);
                }
            }
            let (amount, request_id): (i128, u64) = match items[i] {
                Some(item) => item,
                None => return Err(VaultError::MalformedItem),
            };
            match Self::require_valid_deduct_amount(amount, now.min_deposit, now.max_deduct) {
                Err(error) => return Err(error),
                Ok(()) => {},
            }
            let marker: Option<String> = if i < markers.len() {
                match &markers[i] {
                    Some(text) => Some(text.clone()),
                    None => None,
                }
            } else {
                None
            };
            assert(text_of(marker) == marker_at(texts, i as int));
            match &marker {
                Some(text) => {
                    if self.processed.contains(text) || seen.contains(text) {
                        return Err(VaultError::DuplicateRequestId);
                    }
                },
                None => {},
            }
            total_amount = match total_amount.checked_add(amount) {
                Some(sum) => sum,
                None => return Err(VaultError::Overflow),
            };
            match marker {
                Some(text) => {
                    seen.insert(text);
                },
                None => {},
            }
            assert(self.processed@.union(seen@) =~= with_marker(
                before,
                marker_at(texts, i as int),
            ));
            let ghost earlier = steps@;
            steps.push(Action::RecordDeduction { settlement, amount, request_id });
            proof {
                assert(steps@.skip(1) =~= earlier.skip(1).push(steps@.last()));
                assert(batch_records(prefix, settlement) =~= batch_records(
                    items@.take(i as int),
                    settlement,
                ).push(steps@.last()));
            }
            i = i + 1;
        }
        assert(items@.take(i as int) =~= items@);
        if now.balance < total_amount {
            return Err(VaultError::InsufficientBalance);
        }
        let balance: i128 = now.balance - total_amount;
        self.settings = Some(Settings { balance, ..now });
        self.processed.absorb(seen);
        let payload = BatchDeductPayload {
            total_amount,
            item_count: len as u32,
            balance_after: balance,
            destination: settlement,
        };
        let ghost recorded = steps@.skip(1);
        steps.set(
            0,
            Action::TransferOut { token: now.usdc_token, to: settlement, amount: total_amount },
        );
        steps.push(Action::Publish { event: VaultEvent::BatchDeduct { caller, payload } });
        proof {
            let transfer = Action::TransferOut {
                token: now.usdc_token,
                to: settlement,
                amount: total_amount,
            };
            let event = Action::Publish { event: VaultEvent::BatchDeduct { caller, payload } };
            assert(steps@ =~= seq![transfer] + recorded + seq![event]);
        }
        Ok(steps)
    }
}

impl CalloraVault {
    /// Checks that `caller` is the owner, for the calls that are aborted
    /// otherwise, and returns the settings.
    fn settings_for_owner(&self, caller: AddressKey) -> (result: Result<Settings, VaultError>)
        ensures
            match self@.owner_abort(caller) {
                Some(error) => result == Err::<Settings, VaultError>(error),
                None => result == Ok::<Settings, VaultError>(self@.current()),
            },
    {
        let now = match self.settings {
            Some(settings) => settings,
            None => return Err(VaultError::NotInitialized),
        };
        if caller != now.owner {
            return Err(VaultError::NotOwner);
        }
        Ok(now)
    }

    /// Makes the owner, who calls, the authorized caller of deductions.
    pub fn set_authorized_caller(
        &mut self,
        caller: AddressKey,
    ) -> (result: Result<Vec<Action>, VaultError>)
        ensures
            follows(old(self)@.set_authorized_caller(caller), old(self)@, final(self)@, result),
    {
        let now = match self.settings_for_owner(caller) {
            Ok(settings) => settings,
            Err(error) => return Err(error),
        };
        self.settings = Some(Settings { authorized_caller: caller, ..now });
        Ok(announce(VaultEvent::SetAuthorizedCaller { caller }))
    }

    /// Stops deposits and deductions at once (owner only).
    pub fn pause(&mut self, caller: AddressKey) -> (result: Result<Vec<Action>, VaultError>)
        ensures
            follows(old(self)@.pause(caller), old(self)@, final(self)@, result),
    {
        let now = match self.settings_for_owner(caller) {
            Ok(settings) => settings,
            Err(error) => return Err(error),
        };
        self.settings = Some(Settings { paused: true, ..now });
        Ok(announce(VaultEvent::VaultPaused { caller }))
    }

    /// Resumes deposits and deductions (owner only).
    pub fn unpause(&mut self, caller: AddressKey) -> (result: Result<Vec<Action>, VaultError>)
        ensures
            follows(old(self)@.unpause(caller), old(self)@, final(self)@, result),
    {
        let now = match self.settings_for_owner(caller) {
            Ok(settings) => settings,
            Err(error) => return Err(error),
        };
        self.settings = Some(Settings { paused: false, ..now });
        Ok(announce(VaultEvent::VaultUnpaused { caller }))
    }

    /// Changes the deduction limit (owner only).
    pub fn set_max_deduct(
        &mut self,
        caller: AddressKey,
        max_deduct: i128,
    ) -> (result: Result<Vec<Action>, VaultError>)
        ensures
            follows(
                old(self)@.set_max_deduct(caller, max_deduct),
                old(self)@,
                final(self)@,
                result,
            ),
    {
        let now = match self.settings_for_owner(caller) {
            Ok(settings) => settings,
            Err(error) => return Err(error),
        };
        if max_deduct <= 0 {
            return Err(VaultError::MaxDeductNotPositive);
        }
        self.settings = Some(Settings { max_deduct, ..now });
        Ok(announce(VaultEvent::SetMaxDeduct { caller, max_deduct }))
    }

    /// Changes the settlement contract (owner only).
    pub fn set_settlement(
        &mut self,
        caller: AddressKey,
        settlement: AddressKey,
    ) -> (result: Result<Vec<Action>, VaultError>)
        ensures
            follows(
                old(self)@.set_settlement(caller, settlement),
                old(self)@,
                final(self)@,
                result,
            ),
    {
        let now = match self.settings_for_owner(caller) {
            Ok(settings) => settings,
            Err(error) => return Err(error),
        };
        self.settings = Some(Settings { settlement, ..now });
        Ok(announce(VaultEvent::SetSettlement { caller, settlement }))
    }

    /// Sets the reserve cap of `token` (owner only): a deposit that would push
    /// the balance of the token above `cap` is refused. `i128::MAX` takes the
    /// effective cap away.
    pub fn set_reserve_cap(
        &mut self,
        caller: AddressKey,
        token: AddressKey,
        cap: i128,
    ) -> (result: Result<Vec<Action>, VaultError>)
        ensures
            follows(
                old(self)@.set_reserve_cap(caller, token, cap),
                old(self)@,
                final(self)@,
                result,
            ),
    {
        match self.require_owner(caller) {
            Err(error) => return Err(error),
            Ok(()) => {},
        }
        if cap <= 0 {
            return Err(VaultError::AmountNotPositive);
        }
        let previous: i128 = self.reserve_caps.set(token, cap);
        Ok(announce(VaultEvent::ReserveCapSet { caller, token, previous, cap }))
    }

    /// Removes the markers of the listed requests, so that their ids can be used
    /// again (owner only). Ids without a marker are passed over.
    pub fn prune_processed_requests(
        &mut self,
        caller: AddressKey,
        ids: &soroban_sdk::Vec<Symbol>,
    ) -> (result: Result<Vec<Action>, VaultError>)
        ensures
            prunes(
                old(self)@.prune(caller, symbol_texts(*ids)),
                old(self)@,
                final(self)@,
                caller,
                result,
            ),
    {
        self.prune_markers(caller, &read_symbol_texts(ids))
    }

    /// As [`CalloraVault::prune_processed_requests`], with the texts of the ids.
    /// `None` among them stands for a value that is no symbol.
    pub fn prune_markers(&mut self, caller: AddressKey, ids: &Vec<Option<String>>) -> (result:
        Result<Vec<Action>, VaultError>)
        ensures
            prunes(
                old(self)@.prune(caller, texts_of(ids@)),
                old(self)@,
                final(self)@,
                caller,
                result,
            ),
    {
        match self.require_owner(caller) {
            Err(error) => return Err(error),
            Ok(()) => {},
        }
        let ghost texts = texts_of(ids@);
        let mut i: usize = 0;
        while i < ids.len()
            invariant
                i <= ids.len(),
                texts == texts_of(ids@),
                *self == *old(self),
                self@.owner_refusal(caller) is None,
                forall|j: int| 0 <= j < i ==> #[trigger] texts[j] is Some,
            decreases ids.len() - i,
        {
            if ids[i].is_none() {
                assert(texts[i as int] is None);
                return Err(VaultError::MalformedItem);
            }
            assert(texts[i as int] is Some);
            i = i + 1;
        }
        let mut steps: Vec<Action> = Vec::new();
        let ghost processed = self.processed@;
        proof {
            assert(texts.take(0) =~= Seq::empty());
            assert(self.processed@ =~= kept_markers(processed, texts.take(0)));
        }
        let mut k: usize = 0;
        while k < ids.len()
            invariant
                k <= ids.len(),
                texts == texts_of(ids@),
                forall|j: int| 0 <= j < texts.len() ==> #[trigger] texts[j] is Some,
                self@ == (VaultModel { processed: self.processed@, ..old(self)@ }),
                processed == old(self).processed@,
                self.processed@ == kept_markers(processed, texts.take(k as int)),
                reports_pruned(steps@, caller, pruned_ids(processed, texts.take(k as int))),
            decreases ids.len() - k,
        {
            let ghost earlier = texts.take(k as int);
            let ghost prefix = texts.take(k + 1);
            assert(prefix.drop_last() =~= earlier);
            assert(prefix.last() == texts[k as int]);
            match &ids[k] {
                Some(id) => {
                    let removed: bool = self.processed.remove(id);
                    assert(texts[k as int] == Some(id@));
                    assert(removed == (processed.contains(id@) && !earlier.contains(Some(id@))));
                    assert(self.processed@ =~= kept_markers(processed, prefix)) by {
                        lemma_kept_step(processed, earlier, id@);
                        assert(prefix =~= earlier.push(Some(id@)));
                    }
                    if removed {
                        let text: String = id.clone();
                        let event = VaultEvent::RequestIdPruned { caller, id: text };
                        steps.push(Action::Publish { event });
                    }
                },
                None => {
                    assert(texts[k as int] is None);
                },
            }
            k = k + 1;
        }
        proof {
            assert(texts.take(k as int) =~= texts);
            assert(!texts.contains(None));
            assert(self@ =~= old(self)@.prune(caller, texts)->Ok_0.0);
        }
        Ok(steps)
    }

    /// Checks that `caller` is the owner.
    pub fn require_owner(&self, caller: AddressKey) -> (result: Result<(), VaultError>)
        ensures
            reports(result, self@.owner_refusal(caller)),
    {
        let now = match self.settings {
            Some(settings) => settings,
            None => return Err(VaultError::NotInitialized),
        };
        if caller != now.owner {
            return Err(VaultError::Unauthorized);
        }
        Ok(())
    }

    /// Checks that `caller` is the admin.
    pub fn require_admin(&self, caller: AddressKey) -> (result: Result<(), VaultError>)
        ensures
            reports(result, self@.admin_refusal(caller)),
    {
        let admin = match self.get_admin() {
            Ok(admin) => admin,
            Err(error) => return Err(error),
        };
        if caller != admin {
            return Err(VaultError::Unauthorized);
        }
        Ok(())
    }

    /// Returns the admin, or `NotInitialized` before `init` has run. `init` makes
    /// the owner the admin.
    pub fn get_admin(&self) -> (result: Result<AddressKey, VaultError>)
        ensures
            result == (if self@.initialized() {
                Ok::<AddressKey, VaultError>(self@.current().admin)
            } else {
                Err(VaultError::NotInitialized)
            }),
    {
        match self.settings {
            Some(settings) => Ok(settings.admin),
            None => Err(VaultError::NotInitialized),
        }
    }

    /// Changes the timelock window (admin only). Proposals that are pending keep
    /// the deadlines that they were given.
    pub fn set_timelock_window(
        &mut self,
        caller: AddressKey,
        window: u64,
    ) -> (result: Result<Vec<Action>, VaultError>)
        ensures
            follows(
                old(self)@.set_timelock_window(caller, window),
                old(self)@,
                final(self)@,
                result,
            ),
    {
        match self.require_admin(caller) {
            Err(error) => return Err(error),
            Ok(()) => {},
        }
        if window < MIN_TIMELOCK_SECONDS || window > MAX_TIMELOCK_SECONDS {
            return Err(VaultError::InvalidTimelockWindow);
        }
        self.timelock_window = Some(window);
        let stored: u64 = self.get_timelock_window();
        Ok(announce(VaultEvent::TimelockWindowChanged { caller, stored, window }))
    }

    /// Nominates `new_admin` (admin only). The role changes hands when they
    /// accept it.
    pub fn set_admin(
        &mut self,
        caller: AddressKey,
        new_admin: AddressKey,
    ) -> (result: Result<Vec<Action>, VaultError>)
        ensures
            follows(old(self)@.set_admin(caller, new_admin), old(self)@, final(self)@, result),
    {
        match self.require_admin(caller) {
            Err(error) => return Err(error),
            Ok(()) => {},
        }
        self.pending_admin = Some(new_admin);
        Ok(announce(VaultEvent::AdminNominated { caller, new_admin }))
    }

    /// Gives the nominated admin, who has authorized the call, the role.
    pub fn accept_admin(&mut self) -> (result: Result<Vec<Action>, VaultError>)
        ensures
            follows(old(self)@.accept_admin(), old(self)@, final(self)@, result),
    {
        let new_admin = match self.pending_admin {
            Some(nominee) => nominee,
            None => return Err(VaultError::NoAdminTransferPending),
        };
        let now = match self.settings {
            Some(settings) => settings,
            None => return Err(VaultError::NotInitialized),
        };
        let old_admin = now.admin;
        self.settings = Some(Settings { admin: new_admin, ..now });
        self.pending_admin = None;
        Ok(announce(VaultEvent::AdminAccepted { old_admin, new_admin }))
    }

    /// Proposes a pause (admin only). It can be
    /// executed once the timelock window has passed. A proposal that is pending
    /// is replaced and its wait starts anew.
    pub fn propose_pause(
        &mut self,
        caller: AddressKey,
        now: u64,
    ) -> (result: Result<Vec<Action>, VaultError>)
        ensures
            follows(old(self)@.propose_pause(caller, now), old(self)@, final(self)@, result),
    {
        match self.require_admin(caller) {
            Err(error) => return Err(error),
            Ok(()) => {},
        }
        let execute_after: u64 = match saturating_deadline(now, self.get_timelock_window()) {
            Some(time) => time,
            None => return Err(VaultError::TimelockOverflow),
        };
        self.pending_pause = Some(PendingPause { proposed_at: now, execute_after });
        Ok(announce(VaultEvent::PauseProposed { caller, proposed_at: now, execute_after }))
    }

    /// Executes the proposed pause (admin only), at its deadline or later, and
    /// clears its slot.
    pub fn execute_pause(
        &mut self,
        caller: AddressKey,
        now: u64,
    ) -> (result: Result<Vec<Action>, VaultError>)
        ensures
            follows(old(self)@.execute_pause(caller, now), old(self)@, final(self)@, result),
    {
        match self.require_admin(caller) {
            Err(error) => return Err(error),
            Ok(()) => {},
        }
        let proposal = match self.pending_pause {
            Some(proposal) => proposal,
            None => return Err(VaultError::ProposalNotFound),
        };
        if now < proposal.execute_after {
            return Err(VaultError::TimelockNotExpired);
        }
        let current = match self.settings {
            Some(settings) => settings,
            None => return Err(VaultError::NotInitialized),
        };
        self.settings = Some(Settings { paused: true, ..current });
        self.pending_pause = None;
        Ok(
            vec![
                Action::Publish { event: VaultEvent::PauseExecuted { caller, executed_at: now } },
                Action::Publish { event: VaultEvent::VaultPaused { caller } },
            ],
        )
    }

    /// Clears the pause slot (admin only), whether or not it holds a proposal. The
    /// event says whether it did.
    pub fn cancel_pause(&mut self, caller: AddressKey) -> (result: Result<Vec<Action>, VaultError>)
        ensures
            follows(old(self)@.cancel_pause(caller), old(self)@, final(self)@, result),
    {
        match self.require_admin(caller) {
            Err(error) => return Err(error),
            Ok(()) => {},
        }
        let had_proposal: bool = self.pending_pause.is_some();
        self.pending_pause = None;
        Ok(announce(VaultEvent::PauseCancelled { caller, had_proposal }))
    }

    /// Proposes an upgrade of the contract code to `wasm_hash` (admin only). It can be
    /// executed once the timelock window has passed. A proposal that is pending
    /// is replaced and its wait starts anew.
    pub fn propose_upgrade(
        &mut self,
        caller: AddressKey,
        wasm_hash: [u8; 32],
        now: u64,
    ) -> (result: Result<Vec<Action>, VaultError>)
        ensures
            follows(
                old(self)@.propose_upgrade(caller, wasm_hash, now),
                old(self)@,
                final(self)@,
                result,
            ),
    {
        match self.require_admin(caller) {
            Err(error) => return Err(error),
            Ok(()) => {},
        }
        let execute_after: u64 = match saturating_deadline(now, self.get_timelock_window()) {
            Some(time) => time,
            None => return Err(VaultError::TimelockOverflow),
        };
        self.pending_upgrade = Some(PendingUpgrade { wasm_hash, proposed_at: now, execute_after });
        Ok(
            announce(
                VaultEvent::UpgradeProposed {
                    caller,
                    wasm_hash,
                    proposed_at: now,
                    execute_after,
                },
            ),
        )
    }

    /// Executes the proposed upgrade (admin only), at its deadline or later,
    /// records the new code's hash and clears the slot.
    pub fn execute_upgrade(
        &mut self,
        caller: AddressKey,
        now: u64,
    ) -> (result: Result<Vec<Action>, VaultError>)
        ensures
            follows(old(self)@.execute_upgrade(caller, now), old(self)@, final(self)@, result),
    {
        match self.require_admin(caller) {
            Err(error) => return Err(error),
            Ok(()) => {},
        }
        let proposal = match self.pending_upgrade {
            Some(proposal) => proposal,
            None => return Err(VaultError::ProposalNotFound),
        };
        if now < proposal.execute_after {
            return Err(VaultError::TimelockNotExpired);
        }
        let wasm_hash: [u8; 32] = proposal.wasm_hash;
        self.version = Some(wasm_hash);
        self.pending_upgrade = None;
        Ok(
            vec![
                Action::UpdateWasm { wasm_hash },
                Action::Publish { event: VaultEvent::UpgradeExecuted { caller, executed_at: now } },
                Action::Publish { event: VaultEvent::Upgraded { caller, wasm_hash } },
            ],
        )
    }

    /// Clears the upgrade slot (admin only), whether or not it holds a proposal. The
    /// event says whether it did.
    pub fn cancel_upgrade(
        &mut self,
        caller: AddressKey,
    ) -> (result: Result<Vec<Action>, VaultError>)
        ensures
            follows(old(self)@.cancel_upgrade(caller), old(self)@, final(self)@, result),
    {
        match self.require_admin(caller) {
            Err(error) => return Err(error),
            Ok(()) => {},
        }
        let had_proposal: bool = self.pending_upgrade.is_some();
        self.pending_upgrade = None;
        Ok(announce(VaultEvent::UpgradeCancelled { caller, had_proposal }))
    }

    /// Proposes a transfer of `amount` to `to` (admin only). It can be
    /// executed once the timelock window has passed. A proposal that is pending
    /// is replaced and its wait starts anew.
    pub fn propose_sweep(
        &mut self,
        caller: AddressKey,
        to: AddressKey,
        amount: i128,
        now: u64,
    ) -> (result: Result<Vec<Action>, VaultError>)
        ensures
            follows(
                old(self)@.propose_sweep(caller, to, amount, now),
                old(self)@,
                final(self)@,
                result,
            ),
    {
        match self.require_admin(caller) {
            Err(error) => return Err(error),
            Ok(()) => {},
        }
        if amount <= 0 {
            return Err(VaultError::AmountNotPositive);
        }
        let execute_after: u64 = match saturating_deadline(now, self.get_timelock_window()) {
            Some(time) => time,
            None => return Err(VaultError::TimelockOverflow),
        };
        self.pending_sweep = Some(PendingSweep { to, amount, proposed_at: now, execute_after });
        Ok(
            announce(
                VaultEvent::SweepProposed {
                    caller,
                    to,
                    amount,
                    proposed_at: now,
                    execute_after,
                },
            ),
        )
    }

    /// Returns the proposed sweep where `caller` may execute it now, if the vault
    /// holds enough: to the admin, at its deadline or later.
    pub fn due_sweep(&self, caller: AddressKey, now: u64) -> (result: Result<
        PendingSweep,
        VaultError,
    >)
        ensures
            result == self@.due_sweep(caller, now),
    {
        match self.require_admin(caller) {
            Err(error) => return Err(error),
            Ok(()) => {},
        }
        let proposal = match self.pending_sweep {
            Some(proposal) => proposal,
            None => return Err(VaultError::ProposalNotFound),
        };
        if now < proposal.execute_after {
            return Err(VaultError::TimelockNotExpired);
        }
        Ok(proposal)
    }

    /// Executes the proposed sweep (admin only), at its deadline or later and
    /// where `on_ledger`, what the vault holds on the ledger, is enough. Clears
    /// the slot. The tracked balance stays as it is.
    pub fn execute_sweep(
        &mut self,
        caller: AddressKey,
        now: u64,
        on_ledger: i128,
    ) -> (result: Result<Vec<Action>, VaultError>)
        ensures
            follows(
                old(self)@.execute_sweep(caller, now, on_ledger),
                old(self)@,
                final(self)@,
                result,
            ),
    {
        let proposal = match self.due_sweep(caller, now) {
            Ok(proposal) => proposal,
            Err(error) => return Err(error),
        };
        let token = match self.settings {
            Some(settings) => settings.usdc_token,
            None => return Err(VaultError::NotInitialized),
        };
        if on_ledger < proposal.amount {
            return Err(VaultError::InsufficientBalance);
        }
        let to = proposal.to;
        let amount: i128 = proposal.amount;
        self.pending_sweep = None;
        Ok(
            vec![
                Action::TransferOut { token, to, amount },
                Action::Publish {
                    event: VaultEvent::SweepExecuted { caller, to, amount, executed_at: now },
                },
                Action::Publish { event: VaultEvent::Distribute { to, amount } },
            ],
        )
    }

    /// Clears the sweep slot (admin only), whether or not it holds a proposal. The
    /// event says whether it did.
    pub fn cancel_sweep(&mut self, caller: AddressKey) -> (result: Result<Vec<Action>, VaultError>)
        ensures
            follows(old(self)@.cancel_sweep(caller), old(self)@, final(self)@, result),
    {
        match self.require_admin(caller) {
            Err(error) => return Err(error),
            Ok(()) => {},
        }
        let had_proposal: bool = self.pending_sweep.is_some();
        self.pending_sweep = None;
        Ok(announce(VaultEvent::SweepCancelled { caller, had_proposal }))
    }
}

impl CalloraVault {
    /// Returns whether deposits and deductions are stopped.
    pub fn is_paused(&self) -> (paused: bool)
        ensures
            paused == self@.paused(),
    {
        match self.settings {
            Some(settings) => settings.paused,
            None => false,
        }
    }

    /// Returns the tracked balance.
    pub fn balance(&self) -> (result: i128)
        requires
            self@.initialized(),
        ensures
            result == self@.current().balance,
    {
        self.settings.unwrap().balance
    }

    /// Returns the owner.
    pub fn get_owner(&self) -> (result: AddressKey)
        requires
            self@.initialized(),
        ensures
            result == self@.current().owner,
    {
        self.settings.unwrap().owner
    }

    /// Returns the token that the vault holds.
    pub fn get_usdc_token(&self) -> (result: AddressKey)
        requires
            self@.initialized(),
        ensures
            result == self@.current().usdc_token,
    {
        self.settings.unwrap().usdc_token
    }

    /// Returns who receives what is deducted.
    pub fn get_settlement(&self) -> (result: AddressKey)
        requires
            self@.initialized(),
        ensures
            result == self@.current().settlement,
    {
        self.settings.unwrap().settlement
    }

    /// Returns the deduction limit, `i128::MAX` before `init` has run.
    pub fn get_max_deduct(&self) -> (limit: i128)
        ensures
            limit == (if self@.initialized() {
                self@.current().max_deduct
            } else {
                i128::MAX
            }),
    {
        match self.settings {
            Some(settings) => settings.max_deduct,
            None => i128::MAX,
        }
    }

    /// Returns where revenue goes, if it goes anywhere.
    pub fn get_revenue_pool(&self) -> (pool: Option<AddressKey>)
        ensures
            pool == (if self@.initialized() {
                self@.current().revenue_pool
            } else {
                None
            }),
    {
        match self.settings {
            Some(settings) => settings.revenue_pool,
            None => None,
        }
    }

    /// Returns the timelock window in seconds, 48 hours where none has been
    /// configured.
    pub fn get_timelock_window(&self) -> (window: u64)
        ensures
            window == self@.window(),
    {
        match self.timelock_window {
            Some(window) => window,
            None => DEFAULT_TIMELOCK_SECONDS,
        }
    }

    /// Returns the proposed pause, if there is one.
    pub fn get_pending_pause(&self) -> (proposal: Option<PendingPause>)
        ensures
            proposal == self@.pending_pause,
    {
        self.pending_pause
    }

    /// Returns the proposed upgrade, if there is one.
    pub fn get_pending_upgrade(&self) -> (proposal: Option<PendingUpgrade>)
        ensures
            proposal == self@.pending_upgrade,
    {
        self.pending_upgrade
    }

    /// Returns the proposed sweep, if there is one.
    pub fn get_pending_sweep(&self) -> (proposal: Option<PendingSweep>)
        ensures
            proposal == self@.pending_sweep,
    {
        self.pending_sweep
    }

    /// Returns the hash of the code that the last upgrade installed, if there has
    /// been one.
    pub fn get_version(&self) -> (version: Option<[u8; 32]>)
        ensures
            version == self@.version,
    {
        self.version
    }

    /// Returns the reserve cap of `token`, `i128::MAX` where none has been set.
    pub fn get_reserve_cap(&self, token: AddressKey) -> (cap: i128)
        ensures
            cap == cap_of(self@.reserve_caps, token),
    {
        self.reserve_caps.get(token)
    }

    /// Returns what a sweep of the idle balance would move, where the vault holds
    /// `on_ledger` of its token.
    pub fn dry_run_sweep_idle_balance(&self, on_ledger: i128) -> (result: Result<
        SweepPreview,
        VaultError,
    >)
        requires
            self@.initialized() ==> on_ledger - self@.current().balance <= i128::MAX,
        ensures
            result == (if self@.initialized() {
                Ok::<SweepPreview, VaultError>(preview_of(on_ledger, self@.current().balance))
            } else {
                Err(VaultError::NotInitialized)
            }),
    {
        compute_sweep_preview(self, on_ledger)
    }

    /// Returns whether `caller` has been allowed to deposit.
    pub fn is_authorized_depositor(&self, caller: AddressKey) -> (allowed: bool)
        ensures
            allowed == self@.depositors.contains(caller),
    {
        contains_address(&self.depositors, caller)
    }
}

/// Removing one more marker.
proof fn lemma_kept_step(
    processed: Set<Seq<char>>,
    earlier: Seq<Option<Seq<char>>>,
    id: Seq<char>,
)
    ensures
        kept_markers(processed, earlier.push(Some(id))) == kept_markers(processed, earlier).remove(
            id,
        ),
{
    let longer: Seq<Option<Seq<char>>> = earlier.push(Some(id));
    assert forall|text: Seq<char>| longer.contains(Some(text)) == (earlier.contains(Some(text))
        || text == id) by {
        if earlier.contains(Some(text)) {
            let i: int = choose|i: int| 0 <= i < earlier.len() && earlier[i] == Some(text);
            assert(longer[i] == Some(text));
        }
        assert(longer[earlier.len() as int] == Some(id));
        if longer.contains(Some(text)) {
            let i: int = choose|i: int| 0 <= i < longer.len() && longer[i] == Some(text);
            if i < earlier.len() {
                assert(earlier[i] == Some(text));
            }
        }
    }
    assert(kept_markers(processed, longer) =~= kept_markers(processed, earlier).remove(id));
}

/// A batch whose beginning is refused is refused with the same error.
pub(crate) proof fn lemma_batch_refused(
    items: Seq<Option<(i128, u64)>>,
    markers: Seq<Option<Seq<char>>>,
    now: Settings,
    processed: Set<Seq<char>>,
    n: int,
)
    requires
        0 <= n <= items.len(),
        batch_sum(items.take(n), markers, now.min_deposit, now.max_deduct, processed) is Err,
    ensures
        batch_sum(items, markers, now.min_deposit, now.max_deduct, processed) == batch_sum(
            items.take(n),
            markers,
            now.min_deposit,
            now.max_deduct,
            processed,
        ),
    decreases items.len(),
{
    if n == items.len() {
        assert(items.take(n) =~= items);
    } else {
        let shorter: Seq<Option<(i128, u64)>> = items.drop_last();
        assert(shorter.take(n) =~= items.take(n));
        lemma_batch_refused(shorter, markers, now, processed, n);
    }
}

} // verus!
