//! Laws of the tracked balance.
use vstd::prelude::*;

use crate::address::AddressKey;
use crate::calls::{flow_of, net_inflow, with_inflow, Call};
use crate::effects::Action;
use crate::errors::VaultError;
use crate::laws::frame::{law_calls_change_only_their_own, law_init_comes_first_and_once};
use crate::limits::cap_of;
use crate::model::{batch_records, batch_sum, deduct_amount_refusal, marker_at, Outcome, VaultModel};
use crate::vault::{reports_pruned, Settings};
use crate::views::preview_of;

verus! {

/// Appending a step adds what it moves.
proof fn lemma_push(actions: Seq<Action>, action: Action, token: AddressKey)
    ensures
        net_inflow(actions.push(action), token) == net_inflow(actions, token) + flow_of(
            action,
            token,
        ),
{
    assert(actions.push(action).drop_last() =~= actions);
}

/// Steps that move nothing add nothing.
proof fn lemma_no_flow(actions: Seq<Action>, token: AddressKey)
    requires
        forall|i: int| 0 <= i < actions.len() ==> flow_of(#[trigger] actions[i], token) == 0,
    ensures
        net_inflow(actions, token) == 0,
    decreases actions.len(),
{
    if actions.len() > 0 {
        lemma_no_flow(actions.drop_last(), token);
    }
}

/// One step adds what it moves.
proof fn lemma_one(action: Action, token: AddressKey)
    ensures
        net_inflow(seq![action], token) == flow_of(action, token),
{
    assert(seq![action] =~= Seq::<Action>::empty().push(action));
    lemma_push(Seq::empty(), action, token);
}

/// Two steps.
proof fn lemma_two(first: Action, second: Action, token: AddressKey)
    ensures
        net_inflow(seq![first, second], token) == flow_of(first, token) + flow_of(second, token),
{
    lemma_one(first, token);
    assert(seq![first, second] =~= seq![first].push(second));
    lemma_push(seq![first], second, token);
}

/// Three steps.
proof fn lemma_three(first: Action, second: Action, third: Action, token: AddressKey)
    ensures
        net_inflow(seq![first, second, third], token) == flow_of(first, token) + flow_of(
            second,
            token,
        ) + flow_of(third, token),
{
    lemma_two(first, second, token);
    assert(seq![first, second, third] =~= seq![first, second].push(third));
    lemma_push(seq![first, second], third, token);
}

/// The steps of a batch move what its transfer moves.
proof fn lemma_batch_flow(
    transfer: Action,
    records: Seq<Action>,
    event: Action,
    token: AddressKey,
)
    requires
        forall|i: int| 0 <= i < records.len() ==> flow_of(#[trigger] records[i], token) == 0,
        flow_of(event, token) == 0,
    ensures
        net_inflow(seq![transfer] + records + seq![event], token) == flow_of(transfer, token),
    decreases records.len(),
{
    let steps: Seq<Action> = seq![transfer] + records;
    assert(steps + seq![event] =~= steps.push(event));
    lemma_push(steps, event, token);
    if records.len() == 0 {
        assert(steps =~= seq![transfer]);
        lemma_one(transfer, token);
    } else {
        let fewer: Seq<Action> = records.drop_last();
        lemma_batch_flow(transfer, fewer, event, token);
        assert(seq![transfer] + fewer + seq![event] =~= (seq![transfer] + fewer).push(event));
        lemma_push(seq![transfer] + fewer, event, token);
        assert(steps =~= (seq![transfer] + fewer).push(records.last()));
        lemma_push(seq![transfer] + fewer, records.last(), token);
    }
}

/// The sum of the amounts of a batch.
pub open spec fn amounts(items: Seq<Option<(i128, u64)>>) -> int
    decreases items.len(),
{
    if items.len() == 0 {
        0
    } else {
        amounts(items.drop_last()) + items.last()->Some_0.0
    }
}

/// A batch that is accepted holds amounts that could each be deducted, and comes
/// to their sum.
pub proof fn law_batch_comes_to_its_sum(
    items: Seq<Option<(i128, u64)>>,
    markers: Seq<Option<Seq<char>>>,
    min_amount: i128,
    max_deduct: i128,
    processed: Set<Seq<char>>,
)
    requires
        batch_sum(items, markers, min_amount, max_deduct, processed) is Ok,
    ensures
        batch_sum(items, markers, min_amount, max_deduct, processed)->Ok_0.0 == amounts(items),
        0 <= amounts(items) <= i128::MAX,
        items.len() > 0 ==> amounts(items) > 0,
        forall|i: int|
            0 <= i < items.len() ==> #[trigger] items[i] is Some && deduct_amount_refusal(
                items[i]->Some_0.0,
                min_amount,
                max_deduct,
            ) is None,
    decreases items.len(),
{
    if items.len() > 0 {
        let shorter: Seq<Option<(i128, u64)>> = items.drop_last();
        law_batch_comes_to_its_sum(shorter, markers, min_amount, max_deduct, processed);
        assert forall|i: int| 0 <= i < items.len() implies #[trigger] items[i] is Some
            && deduct_amount_refusal(items[i]->Some_0.0, min_amount, max_deduct) is None by {
            if i < items.len() - 1 {
                assert(shorter[i] == items[i]);
            }
        }
    }
}

/// Steps that move no tokens add nothing.
proof fn lemma_only_events(outcome: Outcome, token: AddressKey)
    requires
        outcome matches Ok((_, steps)) ==> forall|i: int|
            0 <= i < steps.len() ==> flow_of(#[trigger] steps[i], token) == 0,
    ensures
        with_inflow(outcome, token) matches Ok((_, inflow)) ==> inflow == 0,
{
    if let Ok((_, steps)) = outcome {
        lemma_no_flow(steps, token);
    }
}

/// Deposits and deductions apart, only a sweep moves tokens.
proof fn lemma_moves_nothing(state: VaultModel, call: Call)
    requires
        state.initialized(),
        !(call is Deposit) && !(call is Deduct) && !(call is BatchDeduct),
        !(call is ExecuteSweep),
    ensures
        state.after(call) matches Ok((_, inflow)) ==> inflow == 0,
{
    reveal(VaultModel::after);
    let token: AddressKey = state.current().usdc_token;
    match call {
        Call::Init { .. } => {},
        Call::SetAuthorizedCaller { caller } => {
            lemma_only_events(state.set_authorized_caller(caller), token);
        },
        Call::Pause { caller } => {
            lemma_only_events(state.pause(caller), token);
        },
        Call::Unpause { caller } => {
            lemma_only_events(state.unpause(caller), token);
        },
        Call::SetMaxDeduct { caller, max_deduct } => {
            lemma_only_events(state.set_max_deduct(caller, max_deduct), token);
        },
        Call::SetSettlement { caller, settlement } => {
            lemma_only_events(state.set_settlement(caller, settlement), token);
        },
        Call::SetReserveCap { caller, token: capped, cap } => {
            lemma_only_events(state.set_reserve_cap(caller, capped, cap), token);
        },
        Call::SetTimelockWindow { caller, window } => {
            lemma_only_events(state.set_timelock_window(caller, window), token);
        },
        Call::SetAdmin { caller, new_admin } => {
            lemma_only_events(state.set_admin(caller, new_admin), token);
        },
        Call::AcceptAdmin => {
            lemma_only_events(state.accept_admin(), token);
        },
        Call::ProposePause { caller, now } => {
            lemma_only_events(state.propose_pause(caller, now), token);
        },
        Call::ExecutePause { caller, now } => {
            lemma_only_events(state.execute_pause(caller, now), token);
        },
        Call::CancelPause { caller } => {
            lemma_only_events(state.cancel_pause(caller), token);
        },
        Call::ProposeUpgrade { caller, wasm_hash, now } => {
            lemma_only_events(state.propose_upgrade(caller, wasm_hash, now), token);
        },
        Call::ExecuteUpgrade { caller, now } => {
            lemma_only_events(state.execute_upgrade(caller, now), token);
        },
        Call::CancelUpgrade { caller } => {
            lemma_only_events(state.cancel_upgrade(caller), token);
        },
        Call::ProposeSweep { caller, to, amount, now } => {
            lemma_only_events(state.propose_sweep(caller, to, amount, now), token);
        },
        Call::CancelSweep { caller } => {
            lemma_only_events(state.cancel_sweep(caller), token);
        },
        _ => {},
    }
}

/// A deposit moves the amount in that it adds to the balance.
proof fn lemma_deposit_flow(state: VaultModel, caller: AddressKey, amount: i128)
    ensures
        state.after(Call::Deposit { caller, amount }) matches Ok((next, inflow))
            ==> next.current().balance == state.current().balance + inflow,
{
    reveal(VaultModel::after);
    if let Ok((_, steps)) = state.deposit(caller, amount) {
        lemma_two(steps[0], steps[1], state.current().usdc_token);
        assert(steps =~= seq![steps[0], steps[1]]);
    }
}

/// A deduction moves the amount out that it takes from the balance.
proof fn lemma_deduct_flow(
    state: VaultModel,
    caller: AddressKey,
    amount: i128,
    request_id: u64,
    marker: Option<Seq<char>>,
)
    ensures
        state.after(Call::Deduct { caller, amount, request_id, marker }) matches Ok((next, inflow))
            ==> next.current().balance == state.current().balance + inflow,
{
    reveal(VaultModel::after);
    if let Ok((_, steps)) = state.deduct(caller, amount, request_id, marker) {
        lemma_three(steps[0], steps[1], steps[2], state.current().usdc_token);
        assert(steps =~= seq![steps[0], steps[1], steps[2]]);
    }
}

/// A batch moves the sum out that it takes from the balance.
proof fn lemma_batch_deduct_flow(
    state: VaultModel,
    caller: AddressKey,
    items: Seq<Option<(i128, u64)>>,
    markers: Seq<Option<Seq<char>>>,
)
    ensures
        state.after(Call::BatchDeduct { caller, items, markers }) matches Ok((next, inflow))
            ==> next.current().balance == state.current().balance + inflow,
{
    reveal(VaultModel::after);
    if let Ok((_, steps)) = state.batch_deduct(caller, items, markers) {
        let now: Settings = state.current();
        law_batch_comes_to_its_sum(
            items,
            markers,
            now.min_deposit,
            now.max_deduct,
            state.processed,
        );
        let records: Seq<Action> = batch_records(items, now.settlement);
        assert(steps =~= seq![steps[0]] + records + seq![steps.last()]);
        lemma_batch_flow(steps[0], records, steps.last(), now.usdc_token);
    }
}

/// Every call but `init` and `execute_sweep` changes the tracked balance by
/// exactly the tokens that it moves.
pub proof fn law_balance_follows_tokens(state: VaultModel, call: Call)
    requires
        state.initialized(),
        !(call is ExecuteSweep),
    ensures
        state.after(call) matches Ok((next, inflow)) ==> next.current().balance
            == state.current().balance + inflow,
{
    match call {
        Call::Deposit { caller, amount } => {
            lemma_deposit_flow(state, caller, amount);
        },
        Call::Deduct { caller, amount, request_id, marker } => {
            lemma_deduct_flow(state, caller, amount, request_id, marker);
        },
        Call::BatchDeduct { caller, items, markers } => {
            lemma_batch_deduct_flow(state, caller, items, markers);
        },
        _ => {
            law_init_comes_first_and_once(state, call);
            if state.after(call) is Ok {
                lemma_moves_nothing(state, call);
                law_calls_change_only_their_own(state, call);
            }
        },
    }
}

/// Pruning asks for no token transfer.
pub proof fn law_pruning_moves_no_tokens(
    steps: Seq<Action>,
    caller: AddressKey,
    ids: Seq<Seq<char>>,
    token: AddressKey,
)
    requires
        reports_pruned(steps, caller, ids),
    ensures
        net_inflow(steps, token) == 0,
{
    lemma_no_flow(steps, token);
}

/// As long as nothing is swept, a tracked balance that the vault's holdings
/// cover stays covered.
pub proof fn law_balance_stays_covered(state: VaultModel, call: Call, on_ledger: int)
    requires
        state.initialized(),
        !(call is ExecuteSweep),
        on_ledger >= state.current().balance,
    ensures
        state.after(call) matches Ok((next, inflow)) ==> on_ledger + inflow
            >= next.current().balance,
{
    law_balance_follows_tokens(state, call);
}

/// Tokens leave the vault only by a deduction of the authorized caller while the
/// vault is not paused, or by a sweep of the admin whose deadline has been
/// reached.
pub proof fn law_tokens_leave_by_deduction_or_due_sweep(state: VaultModel, call: Call)
    requires
        state.initialized(),
        state.after(call) is Ok,
        state.after(call)->Ok_0.1 < 0,
    ensures
        match call {
            Call::Deduct { caller, .. } => caller == state.current().authorized_caller
                && !state.paused(),
            Call::BatchDeduct { caller, .. } => caller == state.current().authorized_caller
                && !state.paused(),
            Call::ExecuteSweep { caller, now, .. } => caller == state.current().admin && (
            state.pending_sweep matches Some(proposal) && now >= proposal.execute_after),
            _ => false,
        },
{
    if call is Deduct || call is BatchDeduct || call is ExecuteSweep {
        reveal(VaultModel::after);
    } else if let Call::Deposit { caller, amount } = call {
        lemma_deposit_flow(state, caller, amount);
        reveal(VaultModel::after);
    } else {
        lemma_moves_nothing(state, call);
    }
}

/// A tracked balance that is not negative stays so.
pub proof fn law_balance_stays_non_negative(state: VaultModel, call: Call)
    requires
        state.initialized(),
        state.current().balance >= 0,
    ensures
        state.next(call).current().balance >= 0,
{
    if state.after(call) is Ok {
        if call is Deposit || call is Deduct || call is BatchDeduct {
            reveal(VaultModel::after);
            if let Call::BatchDeduct { caller: _, items, markers } = call {
                let now: Settings = state.current();
                law_batch_comes_to_its_sum(
                    items,
                    markers,
                    now.min_deposit,
                    now.max_deduct,
                    state.processed,
                );
            }
        } else {
            law_init_comes_first_and_once(state, call);
            law_calls_change_only_their_own(state, call);
        }
    }
}

/// A sweep moves exactly the proposed amount out, no more than the vault holds,
/// and leaves the tracked balance as it is.
pub proof fn law_sweep_moves_the_proposed_amount(
    state: VaultModel,
    caller: AddressKey,
    now: u64,
    on_ledger: i128,
)
    ensures
        state.after(Call::ExecuteSweep { caller, now, on_ledger }) matches Ok((next, inflow)) ==> {
            &&& inflow == -(state.pending_sweep->Some_0.amount as int)
            &&& on_ledger + inflow >= 0
            &&& next.settings == state.settings
        },
{
    reveal(VaultModel::after);
    if let Ok((_, steps)) = state.execute_sweep(caller, now, on_ledger) {
        lemma_three(steps[0], steps[1], steps[2], state.current().usdc_token);
        assert(steps =~= seq![steps[0], steps[1], steps[2]]);
    }
}

/// Sweeping the idle balance that the preview reports leaves nothing idle, and
/// leaves the tracked balance covered.
pub proof fn law_sweeping_the_preview_leaves_nothing_idle(
    state: VaultModel,
    caller: AddressKey,
    now: u64,
    on_ledger: i128,
)
    requires
        state.initialized(),
        on_ledger - state.current().balance <= i128::MAX,
        preview_of(on_ledger, state.current().balance).has_idle,
        state.pending_sweep is Some,
        state.pending_sweep->Some_0.amount == preview_of(
            on_ledger,
            state.current().balance,
        ).idle_balance,
    ensures
        state.after(Call::ExecuteSweep { caller, now, on_ledger }) matches Ok((next, inflow)) ==> {
            &&& on_ledger + inflow == next.current().balance
            &&& preview_of((on_ledger + inflow) as i128, next.current().balance).idle_balance == 0
            &&& !preview_of((on_ledger + inflow) as i128, next.current().balance).has_idle
        },
{
    law_sweep_moves_the_proposed_amount(state, caller, now, on_ledger);
}

/// An accepted deposit leaves the balance within the reserve cap of the token; one
/// that only the cap stands against is refused for it; and where no cap has been
/// set, or the cap has been lifted, none is.
pub proof fn law_deposits_respect_the_cap(state: VaultModel, caller: AddressKey, amount: i128)
    ensures
        state.deposit(caller, amount) matches Ok((next, _)) ==> next.current().balance <= cap_of(
            next.reserve_caps,
            next.current().usdc_token,
        ),
        (VaultModel { reserve_caps: Map::empty(), ..state }).deposit(caller, amount) matches Ok(
            (uncapped, _),
        ) && uncapped.current().balance > cap_of(state.reserve_caps, state.current().usdc_token)
            ==> state.deposit(caller, amount) == Err::<(VaultModel, Seq<Action>), VaultError>(
            VaultError::ExceedsReserveCap,
        ),
        cap_of(state.reserve_caps, state.current().usdc_token) == i128::MAX ==> state.deposit(
            caller,
            amount,
        ) != Err::<(VaultModel, Seq<Action>), VaultError>(VaultError::ExceedsReserveCap),
{
}

/// The reserve cap of a token is the one that was last set for it; setting it
/// leaves those of other tokens alone.
pub proof fn law_cap_is_the_last_one_set(
    state: VaultModel,
    caller: AddressKey,
    token: AddressKey,
    cap: i128,
    other: AddressKey,
)
    ensures
        state.set_reserve_cap(caller, token, cap) matches Ok((next, _)) ==> cap_of(
            next.reserve_caps,
            other,
        ) == (if other == token {
            cap
        } else {
            cap_of(state.reserve_caps, other)
        }),
{
}

/// What the steps report to the settlement contract, in order.
pub open spec fn records_in(steps: Seq<Action>) -> Seq<Action>
    decreases steps.len(),
{
    if steps.len() == 0 {
        Seq::empty()
    } else {
        let earlier = records_in(steps.drop_last());
        if steps.last() is RecordDeduction {
            earlier.push(steps.last())
        } else {
            earlier
        }
    }
}

/// Appending a step appends its record, if it is one.
proof fn lemma_push_record(steps: Seq<Action>, step: Action)
    ensures
        records_in(steps.push(step)) == (if step is RecordDeduction {
            records_in(steps).push(step)
        } else {
            records_in(steps)
        }),
{
    assert(steps.push(step).drop_last() =~= steps);
}

/// The steps of a batch report its records.
pub(crate) proof fn lemma_batch_steps_report(transfer: Action, records: Seq<Action>, event: Action)
    requires
        !(transfer is RecordDeduction) && !(event is RecordDeduction),
        forall|i: int| 0 <= i < records.len() ==> #[trigger] records[i] is RecordDeduction,
    ensures
        records_in(seq![transfer] + records + seq![event]) == records,
    decreases records.len(),
{
    let steps: Seq<Action> = seq![transfer] + records;
    assert(steps + seq![event] =~= steps.push(event));
    lemma_push_record(steps, event);
    if records.len() == 0 {
        assert(steps =~= Seq::<Action>::empty().push(transfer));
        lemma_push_record(Seq::empty(), transfer);
        assert(records_in(steps) =~= records);
    } else {
        let fewer: Seq<Action> = records.drop_last();
        let before: Seq<Action> = seq![transfer] + fewer;
        lemma_batch_steps_report(transfer, fewer, event);
        assert(before + seq![event] =~= before.push(event));
        lemma_push_record(before, event);
        assert(steps =~= before.push(records.last()));
        lemma_push_record(before, records.last());
        assert(fewer.push(records.last()) =~= records);
    }
}

/// The state after the items of a batch have been deducted one by one, and all
/// steps that this has asked for, or `None` where one of them is refused.
pub open spec fn deducted_one_by_one(
    state: VaultModel,
    caller: AddressKey,
    items: Seq<Option<(i128, u64)>>,
    markers: Seq<Option<Seq<char>>>,
) -> Option<(VaultModel, Seq<Action>)>
    decreases items.len(),
{
    if items.len() == 0 {
        Some((state, Seq::empty()))
    } else {
        match (deducted_one_by_one(state, caller, items.drop_last(), markers), items.last()) {
            (Some((before, earlier)), Some((amount, request_id))) => match before.deduct(
                caller,
                amount,
                request_id,
                marker_at(markers, items.len() - 1),
            ) {
                Ok((next, steps)) => Some((next, earlier + steps)),
                Err(_) => None,
            },
            _ => None,
        }
    }
}

/// The state after a batch that comes to `total`.
spec fn after_batch(state: VaultModel, total: int, processed: Set<Seq<char>>) -> VaultModel {
    let now = state.current();
    VaultModel {
        settings: Some(Settings { balance: (now.balance - total) as i128, ..now }),
        processed,
        ..state
    }
}

/// The steps of one deduction move its amount and report it.
proof fn lemma_deduct_steps(
    state: VaultModel,
    caller: AddressKey,
    amount: i128,
    request_id: u64,
    marker: Option<Seq<char>>,
    earlier: Seq<Action>,
    token: AddressKey,
)
    requires
        state.deduct(caller, amount, request_id, marker) is Ok,
    ensures
        ({
            let steps = state.deduct(caller, amount, request_id, marker)->Ok_0.1;
            let settlement = state.current().settlement;
            &&& net_inflow(earlier + steps, token) == net_inflow(earlier, token) - (
            if token == state.current().usdc_token {
                amount as int
            } else {
                0
            })
            &&& records_in(earlier + steps) == records_in(earlier).push(
                Action::RecordDeduction { settlement, amount, request_id },
            )
        }),
{
    let steps: Seq<Action> = state.deduct(caller, amount, request_id, marker)->Ok_0.1;
    let one: Seq<Action> = earlier.push(steps[0]);
    let two: Seq<Action> = one.push(steps[1]);
    assert(earlier + steps =~= two.push(steps[2]));
    lemma_push(earlier, steps[0], token);
    lemma_push(one, steps[1], token);
    lemma_push(two, steps[2], token);
    lemma_push_record(earlier, steps[0]);
    lemma_push_record(one, steps[1]);
    lemma_push_record(two, steps[2]);
}

/// Deducting the items one by one gets as far as their sum and their markers
/// allow, moves their sum and reports each of them.
proof fn lemma_one_by_one(
    state: VaultModel,
    caller: AddressKey,
    items: Seq<Option<(i128, u64)>>,
    markers: Seq<Option<Seq<char>>>,
    token: AddressKey,
)
    requires
        state.deduct_caller_refusal(caller) is None,
    ensures
        ({
            let now = state.current();
            match (
                batch_sum(items, markers, now.min_deposit, now.max_deduct, state.processed),
                deducted_one_by_one(state, caller, items, markers),
            ) {
                (Ok((total, processed)), Some((next, steps))) => {
                    &&& items.len() == 0 || total <= now.balance
                    &&& next == after_batch(state, total, processed)
                    &&& net_inflow(steps, token) == (if token == now.usdc_token {
                        -total
                    } else {
                        0
                    })
                    &&& records_in(steps) == batch_records(items, now.settlement)
                },
                (Ok((total, _)), None) => items.len() > 0 && total > now.balance,
                (Err(_), None) => true,
                (Err(_), Some(_)) => false,
            }
        }),
    decreases items.len(),
{
    let now: Settings = state.current();
    if items.len() > 0 {
        let shorter: Seq<Option<(i128, u64)>> = items.drop_last();
        lemma_one_by_one(state, caller, shorter, markers, token);
        if batch_sum(shorter, markers, now.min_deposit, now.max_deduct, state.processed) is Ok {
            law_batch_comes_to_its_sum(
                shorter,
                markers,
                now.min_deposit,
                now.max_deduct,
                state.processed,
            );
        }
        if deducted_one_by_one(state, caller, items, markers) is Some {
            let (before, earlier) = deducted_one_by_one(state, caller, shorter, markers)->Some_0;
            let (amount, request_id) = items.last()->Some_0;
            lemma_deduct_steps(
                before,
                caller,
                amount,
                request_id,
                marker_at(markers, items.len() - 1),
                earlier,
                token,
            );
            assert(batch_records(items, now.settlement) =~= batch_records(
                shorter,
                now.settlement,
            ).push(
                Action::RecordDeduction { settlement: now.settlement, amount, request_id },
            ));
        }
    } else {
        assert(Settings { balance: (now.balance - 0) as i128, ..now } == now);
        assert(batch_records(items, now.settlement) =~= Seq::empty());
    }
}

/// A batch is accepted exactly when its items could be deducted one by one. It
/// leaves the vault in the same state, reports the same deductions to the
/// settlement contract in the same order, and moves the same amount of every
/// token.
pub proof fn law_batch_is_its_items_one_by_one(
    state: VaultModel,
    caller: AddressKey,
    items: Seq<Option<(i128, u64)>>,
    markers: Seq<Option<Seq<char>>>,
    token: AddressKey,
)
    requires
        items.len() > 0,
    ensures
        match (
            state.batch_deduct(caller, items, markers),
            deducted_one_by_one(state, caller, items, markers),
        ) {
            (Ok((next, steps)), Some((single_next, single_steps))) => {
                &&& single_next == next
                &&& records_in(single_steps) == records_in(steps)
                &&& net_inflow(single_steps, token) == net_inflow(steps, token)
            },
            (Err(_), None) => true,
            _ => false,
        },
{
    if state.deduct_caller_refusal(caller) is Some {
        lemma_refused_one_by_one(state, caller, items, markers);
    } else {
        lemma_one_by_one(state, caller, items, markers, token);
        if let Ok((_, steps)) = state.batch_deduct(caller, items, markers) {
            let now: Settings = state.current();
            law_batch_comes_to_its_sum(
                items,
                markers,
                now.min_deposit,
                now.max_deduct,
                state.processed,
            );
            let records: Seq<Action> = batch_records(items, now.settlement);
            assert(steps =~= seq![steps[0]] + records + seq![steps.last()]);
            lemma_batch_flow(steps[0], records, steps.last(), token);
            lemma_batch_steps_report(steps[0], records, steps.last());
        }
    }
}

/// Who may not deduct at all gets nowhere.
proof fn lemma_refused_one_by_one(
    state: VaultModel,
    caller: AddressKey,
    items: Seq<Option<(i128, u64)>>,
    markers: Seq<Option<Seq<char>>>,
)
    requires
        items.len() > 0,
        state.deduct_caller_refusal(caller) is Some,
    ensures
        deducted_one_by_one(state, caller, items, markers) is None,
    decreases items.len(),
{
    if items.len() > 1 {
        lemma_refused_one_by_one(state, caller, items.drop_last(), markers);
    } else {
        assert(deducted_one_by_one(state, caller, items.drop_last(), markers)->Some_0.0 == state);
    }
}

} // verus!
