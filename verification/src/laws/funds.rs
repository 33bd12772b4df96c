//! Laws of what deposits, deductions and sweeps take, move and report.
use vstd::prelude::*;

use crate::address::AddressKey;
use crate::calls::{lemma_after, Call};
use crate::effects::{Action, DeductPayload, DepositPayload, VaultEvent};
use crate::errors::VaultError;
use crate::laws::accounting::{
    amounts, law_batch_comes_to_its_sum, lemma_batch_steps_report, records_in,
};
use crate::laws::announcements::steps_of;
use crate::laws::requests::{has_duplicate_marker, items_in_order, lemma_batch_is_judged};
use crate::laws::timelock::refused_with;
use crate::model::{batch_records, batch_sum, marker_at, VaultModel};
use crate::timelock::PendingSweep;
use crate::vault::{lemma_batch_refused, Settings};

verus! {

/// Whether a step moves tokens.
pub open spec fn is_transfer(step: Action) -> bool {
    step is TransferIn || step is TransferOut
}

/// Whether exactly one of the steps moves tokens, and how.
pub open spec fn sole_transfer(steps: Seq<Action>, transfer: Action) -> bool {
    exists|k: int|
        0 <= k < steps.len() && #[trigger] steps[k] == transfer && is_transfer(transfer)
            && forall|i: int| 0 <= i < steps.len() && i != k ==> !is_transfer(#[trigger] steps[i])
}

/// Whether exactly one of the steps changes the contract code, and to what.
pub open spec fn sole_code_change(steps: Seq<Action>, wasm_hash: [u8; 32]) -> bool {
    exists|k: int|
        0 <= k < steps.len() && #[trigger] steps[k] == (Action::UpdateWasm { wasm_hash })
            && forall|i: int|
            0 <= i < steps.len() && i != k ==> !(#[trigger] steps[i] is UpdateWasm)
}

/// Whether exactly one of the steps publishes an event, and which.
pub open spec fn sole_event(steps: Seq<Action>, event: VaultEvent) -> bool {
    exists|k: int|
        0 <= k < steps.len() && #[trigger] steps[k] == (Action::Publish { event }) && forall|
            i: int,
        |
            0 <= i < steps.len() && i != k ==> !(#[trigger] steps[i] is Publish)
}

/// Tokens come in only by a deposit, from the caller and for the amount of the
/// call. They go out only by a deduction, to the settlement contract that holds
/// when the call is made and for the amount of the call or the sum of the batch,
/// or by a sweep, to the proposed recipient and for the proposed amount. All of
/// it is of the vault's token.
pub proof fn law_every_transfer_has_its_purpose(state: VaultModel, call: Call, i: int)
    requires
        !(call is Prune),
        state.after(call) is Ok,
        0 <= i < steps_of(state, call).len(),
    ensures
        steps_of(state, call)[i] matches Action::TransferIn { token, from, amount } ==> token
            == state.current().usdc_token && call == (Call::Deposit { caller: from, amount }),
        steps_of(state, call)[i] matches Action::TransferOut { token, to, amount } ==> {
            &&& token == state.current().usdc_token
            &&& match call {
                Call::Deduct { amount: asked, .. } => to == state.current().settlement && amount
                    == asked,
                Call::BatchDeduct { items, .. } => to == state.current().settlement && amount
                    == amounts(items),
                Call::ExecuteSweep { .. } => state.pending_sweep matches Some(proposal) && to
                    == proposal.to && amount == proposal.amount,
                _ => false,
            }
        },
{
    lemma_after(state, call);
    if let Call::BatchDeduct { caller: _, items, markers } = call {
        let now: Settings = state.current();
        law_batch_comes_to_its_sum(
            items,
            markers,
            now.min_deposit,
            now.max_deduct,
            state.processed,
        );
    }
}

/// The contract code changes only by an upgrade, and the settlement contract is
/// told of deductions only.
pub proof fn law_code_and_records_have_their_purpose(state: VaultModel, call: Call, i: int)
    requires
        !(call is Prune),
        state.after(call) is Ok,
        0 <= i < steps_of(state, call).len(),
    ensures
        steps_of(state, call)[i] matches Action::UpdateWasm { wasm_hash } ==> call is ExecuteUpgrade
            && (state.pending_upgrade matches Some(proposal) && proposal.wasm_hash == wasm_hash),
        steps_of(state, call)[i] matches Action::RecordDeduction { settlement, .. } ==> (
        call is Deduct || call is BatchDeduct) && settlement == state.current().settlement,
{
    lemma_after(state, call);
}

/// A deposit is refused, in this order, before `init`, while the vault is paused,
/// for an amount that is not positive or below the minimum, for anyone who may
/// not deposit, and where the balance would leave its range or exceed the cap.
pub proof fn law_deposit_refusals(state: VaultModel, caller: AddressKey, amount: i128)
    ensures
        state.settings is None ==> refused_with(
            state.deposit(caller, amount),
            VaultError::NotInitialized,
        ),
        state.settings matches Some(now) ==> {
            let may = caller == now.owner || state.depositors.contains(caller);
            let capped = state.reserve_caps.contains_key(now.usdc_token);
            let outcome = state.deposit(caller, amount);
            if now.paused {
                refused_with(outcome, VaultError::Paused)
            } else if amount <= 0 {
                refused_with(outcome, VaultError::AmountNotPositive)
            } else if amount < now.min_deposit {
                refused_with(outcome, VaultError::DepositBelowMinimum)
            } else if !may {
                refused_with(outcome, VaultError::NotAuthorizedDepositor)
            } else if now.balance + amount > i128::MAX {
                refused_with(outcome, VaultError::Overflow)
            } else if capped && now.balance + amount > state.reserve_caps[now.usdc_token] {
                refused_with(outcome, VaultError::ExceedsReserveCap)
            } else {
                outcome is Ok
            }
        },
{
}

/// An accepted deposit raises the tracked balance by exactly its amount, changes
/// nothing else, and asks for exactly one transfer: of that amount of the vault's
/// token from the caller. One event tells of the caller, the amount and the new
/// balance, after the transfer.
pub proof fn law_deposit_takes_in_the_whole_amount(
    state: VaultModel,
    caller: AddressKey,
    amount: i128,
)
    ensures
        state.deposit(caller, amount) matches Ok((next, steps)) ==> {
            let token = state.settings->Some_0.usdc_token;
            &&& next.settings is Some
            &&& next.settings->Some_0.balance == state.settings->Some_0.balance + amount
            &&& next.settings == Some(
                Settings {
                    balance: next.settings->Some_0.balance,
                    ..state.settings->Some_0
                },
            )
            &&& next == (VaultModel { settings: next.settings, ..state })
            &&& steps.len() == 2
            &&& steps[0] == (Action::TransferIn { token, from: caller, amount })
            &&& sole_transfer(steps, Action::TransferIn { token, from: caller, amount })
            &&& sole_event(
                steps,
                VaultEvent::Deposit {
                    caller,
                    payload: DepositPayload {
                        amount,
                        balance_after: next.settings->Some_0.balance,
                    },
                },
            )
        },
{
    if let Ok((_, steps)) = state.deposit(caller, amount) {
        assert(is_transfer(steps[0]));
        assert(steps[1] is Publish);
    }
}

/// A deduction is refused, in this order, before `init`, for anyone but the
/// authorized caller, while the vault is paused, for an amount that is not
/// positive, below the minimum or above the limit, for a marker that has been
/// processed, and where the balance does not cover it.
pub proof fn law_deduct_refusals(
    state: VaultModel,
    caller: AddressKey,
    amount: i128,
    request_id: u64,
    marker: Option<Seq<char>>,
)
    ensures
        state.settings is None ==> refused_with(
            state.deduct(caller, amount, request_id, marker),
            VaultError::NotInitialized,
        ),
        state.settings matches Some(now) ==> {
            let duplicate = marker is Some && state.processed.contains(marker->Some_0);
            let outcome = state.deduct(caller, amount, request_id, marker);
            if caller != now.authorized_caller {
                refused_with(outcome, VaultError::NotAuthorizedCaller)
            } else if now.paused {
                refused_with(outcome, VaultError::Paused)
            } else if amount <= 0 {
                refused_with(outcome, VaultError::AmountNotPositive)
            } else if amount < now.min_deposit {
                refused_with(outcome, VaultError::DeductBelowMinimum)
            } else if amount > now.max_deduct {
                refused_with(outcome, VaultError::ExceedsMaxDeduct)
            } else if duplicate {
                refused_with(outcome, VaultError::DuplicateRequestId)
            } else if now.balance < amount {
                refused_with(outcome, VaultError::InsufficientBalance)
            } else {
                outcome is Ok
            }
        },
{
}

/// An accepted deduction lowers the tracked balance by exactly its amount, notes
/// its marker, changes nothing else, and asks for exactly one transfer: of that
/// amount of the vault's token to the settlement contract. The settlement contract
/// is then told of the amount and the request, and one event of all of it.
pub proof fn law_deduct_pays_the_settlement_contract(
    state: VaultModel,
    caller: AddressKey,
    amount: i128,
    request_id: u64,
    marker: Option<Seq<char>>,
    id: Seq<char>,
)
    ensures
        state.deduct(caller, amount, request_id, marker) matches Ok((next, steps)) ==> {
            let token = state.settings->Some_0.usdc_token;
            let settlement = state.settings->Some_0.settlement;
            &&& next.settings is Some
            &&& next.settings->Some_0.balance == state.settings->Some_0.balance - amount
            &&& next.settings == Some(
                Settings {
                    balance: next.settings->Some_0.balance,
                    ..state.settings->Some_0
                },
            )
            &&& next == (VaultModel {
                settings: next.settings,
                processed: next.processed,
                ..state
            })
            &&& next.processed.contains(id) <==> state.processed.contains(id) || marker == Some(id)
            &&& steps.len() == 3
            &&& steps[0] == (Action::TransferOut { token, to: settlement, amount })
            &&& sole_transfer(steps, Action::TransferOut { token, to: settlement, amount })
            &&& steps[1] == (Action::RecordDeduction { settlement, amount, request_id })
            &&& sole_event(
                steps,
                VaultEvent::Deduct {
                    caller,
                    payload: DeductPayload {
                        amount,
                        request_id,
                        balance_after: next.settings->Some_0.balance,
                        destination: settlement,
                    },
                },
            )
        },
{
    if let Ok((_, steps)) = state.deduct(caller, amount, request_id, marker) {
        assert(is_transfer(steps[0]));
        assert(steps[1] is RecordDeduction);
        assert(steps[2] is Publish);
    }
}

/// A batch is refused before `init`, for anyone but the authorized caller and
/// while the vault is paused. Else it is accepted exactly when every amount is
/// within the limits, no marker has been processed or stands twice, the sum fits,
/// and the balance covers it.
pub proof fn law_batch_acceptance(
    state: VaultModel,
    caller: AddressKey,
    items: Seq<Option<(i128, u64)>>,
    markers: Seq<Option<Seq<char>>>,
)
    ensures
        state.settings is None ==> refused_with(
            state.batch_deduct(caller, items, markers),
            VaultError::NotInitialized,
        ),
        state.settings matches Some(now) ==> {
            let outcome = state.batch_deduct(caller, items, markers);
            if caller != now.authorized_caller {
                refused_with(outcome, VaultError::NotAuthorizedCaller)
            } else if now.paused {
                refused_with(outcome, VaultError::Paused)
            } else if items_in_order(state, items) && !has_duplicate_marker(
                state.processed,
                items,
                markers,
            ) {
                if amounts(items) <= now.balance {
                    outcome is Ok
                } else {
                    refused_with(outcome, VaultError::InsufficientBalance)
                }
            } else {
                outcome is Err
            }
        },
{
    if state.settings is Some {
        lemma_batch_is_judged(state, items, markers);
    }
}

/// A batch is answered for the first of its items that something is wrong with:
/// that it is no item, that its amount is not positive, below the minimum or above
/// the limit, that its marker has been processed or stands earlier, or that the
/// sum does not fit any more.
pub proof fn law_batch_answers_for_its_first_bad_item(
    state: VaultModel,
    caller: AddressKey,
    items: Seq<Option<(i128, u64)>>,
    markers: Seq<Option<Seq<char>>>,
    k: int,
)
    requires
        state.settings is Some,
        caller == state.settings->Some_0.authorized_caller,
        !state.settings->Some_0.paused,
        0 <= k < items.len(),
        items_in_order(state, items.take(k)),
        !has_duplicate_marker(state.processed, items.take(k), markers),
    ensures
        ({
            let now = state.settings->Some_0;
            let amount = items[k]->Some_0.0;
            let marker = marker_at(markers, k);
            let duplicate = marker is Some && (state.processed.contains(marker->Some_0) || exists|
                j: int,
            |
                0 <= j < k && #[trigger] marker_at(markers, j) == marker);
            let outcome = state.batch_deduct(caller, items, markers);
            if items[k] is None {
                refused_with(outcome, VaultError::MalformedItem)
            } else if amount <= 0 {
                refused_with(outcome, VaultError::AmountNotPositive)
            } else if amount < now.min_deposit {
                refused_with(outcome, VaultError::DeductBelowMinimum)
            } else if amount > now.max_deduct {
                refused_with(outcome, VaultError::ExceedsMaxDeduct)
            } else if duplicate {
                refused_with(outcome, VaultError::DuplicateRequestId)
            } else if amounts(items.take(k)) + amount > i128::MAX {
                refused_with(outcome, VaultError::Overflow)
            } else {
                true
            }
        }),
{
    let now: Settings = state.settings->Some_0;
    let prefix: Seq<Option<(i128, u64)>> = items.take(k + 1);
    lemma_batch_is_judged(state, items.take(k), markers);
    assert(prefix.drop_last() =~= items.take(k));
    assert(prefix.last() == items[k]);
    if batch_sum(prefix, markers, now.min_deposit, now.max_deduct, state.processed) is Err {
        lemma_batch_refused(items, markers, now, state.processed, k + 1);
    }
}

/// An accepted batch lowers the tracked balance by exactly the sum of its amounts,
/// notes exactly the markers of its items, changes nothing else, and asks for
/// exactly one transfer: of that sum of the vault's token to the settlement
/// contract. The settlement contract is then told of each item in order, and one
/// event of the sum, the number of items and the new balance.
pub proof fn law_batch_pays_the_settlement_contract(
    state: VaultModel,
    caller: AddressKey,
    items: Seq<Option<(i128, u64)>>,
    markers: Seq<Option<Seq<char>>>,
    id: Seq<char>,
    i: int,
)
    ensures
        state.batch_deduct(caller, items, markers) matches Ok((next, steps)) ==> {
            let token = state.settings->Some_0.usdc_token;
            let settlement = state.settings->Some_0.settlement;
            let total = amounts(items) as i128;
            &&& total == amounts(items)
            &&& next.settings is Some
            &&& next.settings->Some_0.balance == state.settings->Some_0.balance - amounts(items)
            &&& next.settings == Some(
                Settings {
                    balance: next.settings->Some_0.balance,
                    ..state.settings->Some_0
                },
            )
            &&& next == (VaultModel {
                settings: next.settings,
                processed: next.processed,
                ..state
            })
            &&& next.processed.contains(id) <==> state.processed.contains(id) || exists|j: int|
                0 <= j < items.len() && #[trigger] marker_at(markers, j) == Some(id)
            &&& steps.len() == items.len() + 2
            &&& steps[0] == (Action::TransferOut { token, to: settlement, amount: total })
            &&& sole_transfer(steps, Action::TransferOut { token, to: settlement, amount: total })
            &&& records_in(steps).len() == items.len()
            &&& 0 <= i < items.len() ==> items[i] is Some && records_in(steps)[i] == (
            Action::RecordDeduction {
                settlement,
                amount: items[i]->Some_0.0,
                request_id: items[i]->Some_0.1,
            })
            &&& steps.last() matches Action::Publish { event }
            &&& event matches VaultEvent::BatchDeduct { caller: actor, payload }
            &&& actor == caller
            &&& payload.total_amount == amounts(items)
            &&& items.len() <= u32::MAX ==> payload.item_count == items.len()
            &&& payload.balance_after == next.settings->Some_0.balance
            &&& payload.destination == settlement
        },
{
    if let Ok((_, steps)) = state.batch_deduct(caller, items, markers) {
        let now: Settings = state.current();
        law_batch_comes_to_its_sum(
            items,
            markers,
            now.min_deposit,
            now.max_deduct,
            state.processed,
        );
        lemma_batch_is_judged(state, items, markers);
        let records: Seq<Action> = batch_records(items, now.settlement);
        assert(steps =~= seq![steps[0]] + records + seq![steps.last()]);
        lemma_batch_steps_report(steps[0], records, steps.last());
        assert(is_transfer(steps[0]));
        assert forall|j: int| 0 <= j < steps.len() && j != 0 implies !is_transfer(
            #[trigger] steps[j],
        ) by {
            if j < steps.len() - 1 {
                assert(steps[j] == records[j - 1]);
            }
        }
        if 0 <= i < items.len() {
            assert(items[i] is Some);
        }
    }
}

/// A sweep is refused, in this order, before `init`, for anyone but the admin,
/// without a proposal, before the deadline of the proposal, and where the vault
/// holds less than the proposed amount.
pub proof fn law_sweep_refusals(
    state: VaultModel,
    caller: AddressKey,
    now: u64,
    on_ledger: i128,
)
    ensures
        ({
            let outcome = state.execute_sweep(caller, now, on_ledger);
            let due = state.due_sweep(caller, now);
            if state.settings is None {
                refused_with(outcome, VaultError::NotInitialized) && due == Err::<
                    PendingSweep,
                    VaultError,
                >(VaultError::NotInitialized)
            } else if caller != state.settings->Some_0.admin {
                refused_with(outcome, VaultError::Unauthorized) && due == Err::<
                    PendingSweep,
                    VaultError,
                >(VaultError::Unauthorized)
            } else if state.pending_sweep is None {
                refused_with(outcome, VaultError::ProposalNotFound) && due == Err::<
                    PendingSweep,
                    VaultError,
                >(VaultError::ProposalNotFound)
            } else if now < state.pending_sweep->Some_0.execute_after {
                refused_with(outcome, VaultError::TimelockNotExpired) && due == Err::<
                    PendingSweep,
                    VaultError,
                >(VaultError::TimelockNotExpired)
            } else {
                &&& due == Ok::<PendingSweep, VaultError>(state.pending_sweep->Some_0)
                &&& if on_ledger < state.pending_sweep->Some_0.amount {
                    refused_with(outcome, VaultError::InsufficientBalance)
                } else {
                    outcome is Ok
                }
            }
        }),
{
}

/// An executed sweep pays the recipient that was proposed the amount that was
/// proposed, in the vault's token and in one transfer; it clears the slot and
/// changes nothing else. Two events then tell of it: who executed it and when,
/// and what was distributed to whom.
pub proof fn law_sweep_pays_the_proposed_recipient(
    state: VaultModel,
    caller: AddressKey,
    now: u64,
    on_ledger: i128,
)
    ensures
        state.execute_sweep(caller, now, on_ledger) matches Ok((next, steps)) ==> {
            let token = state.settings->Some_0.usdc_token;
            let to = state.pending_sweep->Some_0.to;
            let amount = state.pending_sweep->Some_0.amount;
            &&& next == (VaultModel { pending_sweep: None, ..state })
            &&& steps.len() == 3
            &&& steps[0] == (Action::TransferOut { token, to, amount })
            &&& sole_transfer(steps, Action::TransferOut { token, to, amount })
            &&& steps[1] == (Action::Publish {
                event: VaultEvent::SweepExecuted { caller, to, amount, executed_at: now },
            })
            &&& steps[2] == (Action::Publish { event: VaultEvent::Distribute { to, amount } })
        },
{
    if let Ok((_, steps)) = state.execute_sweep(caller, now, on_ledger) {
        assert(is_transfer(steps[0]));
    }
}

/// An upgrade is refused, in this order, before `init`, for anyone but the admin,
/// without a proposal, and before the deadline of the proposal.
pub proof fn law_upgrade_refusals(state: VaultModel, caller: AddressKey, now: u64)
    ensures
        ({
            let outcome = state.execute_upgrade(caller, now);
            if state.settings is None {
                refused_with(outcome, VaultError::NotInitialized)
            } else if caller != state.settings->Some_0.admin {
                refused_with(outcome, VaultError::Unauthorized)
            } else if state.pending_upgrade is None {
                refused_with(outcome, VaultError::ProposalNotFound)
            } else if now < state.pending_upgrade->Some_0.execute_after {
                refused_with(outcome, VaultError::TimelockNotExpired)
            } else {
                outcome is Ok
            }
        }),
{
}

/// An executed upgrade asks for exactly one change of the contract code, to the
/// hash that was proposed; the same hash is recorded as the version and told of.
/// It clears the slot, changes nothing else and moves no tokens.
pub proof fn law_upgrade_installs_the_proposed_code(state: VaultModel, caller: AddressKey, now: u64)
    ensures
        state.execute_upgrade(caller, now) matches Ok((next, steps)) ==> {
            let wasm_hash = state.pending_upgrade->Some_0.wasm_hash;
            &&& next == (VaultModel { pending_upgrade: None, version: Some(wasm_hash), ..state })
            &&& steps.len() == 3
            &&& steps[0] == (Action::UpdateWasm { wasm_hash })
            &&& sole_code_change(steps, wasm_hash)
            &&& steps[1] == (Action::Publish {
                event: VaultEvent::UpgradeExecuted { caller, executed_at: now },
            })
            &&& steps[2] == (Action::Publish { event: VaultEvent::Upgraded { caller, wasm_hash } })
        },
{
    if let Ok((_, steps)) = state.execute_upgrade(caller, now) {
        assert(steps[0] is UpdateWasm);
    }
}

} // verus!
