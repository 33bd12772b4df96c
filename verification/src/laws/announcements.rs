//! Laws of the events that calls publish.
use vstd::prelude::*;

use crate::address::AddressKey;
use crate::calls::{lemma_after, Call};
use crate::effects::Action;
use crate::model::VaultModel;

verus! {

/// The name of the event that announces a call. Pruning has none of its own:
/// each marker that it removes is announced by itself.
pub open spec fn event_name(call: Call) -> Seq<char> {
    match call {
        Call::Init { .. } => "init"@,
        Call::Deposit { .. } => "deposit"@,
        Call::Deduct { .. } => "deduct"@,
        Call::BatchDeduct { .. } => "deduct"@,
        Call::SetAuthorizedCaller { .. } => "set_authorized_caller"@,
        Call::Pause { .. } => "vault_paused"@,
        Call::Unpause { .. } => "vault_unpaused"@,
        Call::SetMaxDeduct { .. } => "set_max_deduct"@,
        Call::SetSettlement { .. } => "set_settlement"@,
        Call::SetReserveCap { .. } => "reserve_cap_set"@,
        Call::SetTimelockWindow { .. } => "tl_window_changed"@,
        Call::SetAdmin { .. } => "admin_nominated"@,
        Call::AcceptAdmin => "admin_accepted"@,
        Call::ProposePause { .. } => "pause_proposed"@,
        Call::ExecutePause { .. } => "pause_executed"@,
        Call::CancelPause { .. } => "pause_cancelled"@,
        Call::ProposeUpgrade { .. } => "upgrade_proposed"@,
        Call::ExecuteUpgrade { .. } => "upgrade_executed"@,
        Call::CancelUpgrade { .. } => "upgrade_cancelled"@,
        Call::ProposeSweep { .. } => "sweep_proposed"@,
        Call::ExecuteSweep { .. } => "sweep_executed"@,
        Call::CancelSweep { .. } => "sweep_cancelled"@,
        Call::Prune { .. } => "request_id_pruned"@,
    }
}

/// Who is named as the actors of a call: the caller, and with them who or what
/// the call is about where the role or a token is concerned.
pub open spec fn actors_of(state: VaultModel, call: Call) -> Seq<AddressKey> {
    match call {
        Call::Init { owner, .. } => seq![owner],
        Call::Deposit { caller, .. } => seq![caller],
        Call::Deduct { caller, .. } => seq![caller],
        Call::BatchDeduct { caller, .. } => seq![caller],
        Call::SetAuthorizedCaller { caller } => seq![caller],
        Call::Pause { caller } => seq![caller],
        Call::Unpause { caller } => seq![caller],
        Call::SetMaxDeduct { caller, .. } => seq![caller],
        Call::SetSettlement { caller, .. } => seq![caller],
        Call::SetReserveCap { caller, token, .. } => seq![caller, token],
        Call::SetTimelockWindow { caller, .. } => seq![caller],
        Call::SetAdmin { caller, new_admin } => seq![caller, new_admin],
        Call::AcceptAdmin => seq![state.current().admin, state.pending_admin->Some_0],
        Call::ProposePause { caller, .. } => seq![caller],
        Call::ExecutePause { caller, .. } => seq![caller],
        Call::CancelPause { caller } => seq![caller],
        Call::ProposeUpgrade { caller, .. } => seq![caller],
        Call::ExecuteUpgrade { caller, .. } => seq![caller],
        Call::CancelUpgrade { caller } => seq![caller],
        Call::ProposeSweep { caller, .. } => seq![caller],
        Call::ExecuteSweep { caller, .. } => seq![caller],
        Call::CancelSweep { caller } => seq![caller],
        Call::Prune { caller, .. } => seq![caller],
    }
}

/// Whether one of the steps publishes an event of this name with these actors.
pub open spec fn publishes(steps: Seq<Action>, name: Seq<char>, actors: Seq<AddressKey>) -> bool {
    exists|i: int|
        0 <= i < steps.len() && (#[trigger] steps[i] matches Action::Publish { event }
            && event.name() == name && event.actor_topics() == actors)
}

/// The steps of an accepted call other than pruning.
pub open spec fn steps_of(state: VaultModel, call: Call) -> Seq<Action> {
    match call {
        Call::Init {
            owner,
            usdc_token,
            initial_balance,
            authorized_caller,
            min_deposit,
            revenue_pool,
            max_deduct,
            settlement,
        } => state.init(
            owner,
            usdc_token,
            initial_balance,
            authorized_caller,
            min_deposit,
            revenue_pool,
            max_deduct,
            settlement,
        )->Ok_0.1,
        Call::Deposit { caller, amount } => state.deposit(caller, amount)->Ok_0.1,
        Call::Deduct { caller, amount, request_id, marker } => state.deduct(
            caller,
            amount,
            request_id,
            marker,
        )->Ok_0.1,
        Call::BatchDeduct { caller, items, markers } => state.batch_deduct(
            caller,
            items,
            markers,
        )->Ok_0.1,
        Call::SetAuthorizedCaller { caller } => state.set_authorized_caller(caller)->Ok_0.1,
        Call::Pause { caller } => state.pause(caller)->Ok_0.1,
        Call::Unpause { caller } => state.unpause(caller)->Ok_0.1,
        Call::SetMaxDeduct { caller, max_deduct } => state.set_max_deduct(
            caller,
            max_deduct,
        )->Ok_0.1,
        Call::SetSettlement { caller, settlement } => state.set_settlement(
            caller,
            settlement,
        )->Ok_0.1,
        Call::SetReserveCap { caller, token, cap } => state.set_reserve_cap(
            caller,
            token,
            cap,
        )->Ok_0.1,
        Call::SetTimelockWindow { caller, window } => state.set_timelock_window(
            caller,
            window,
        )->Ok_0.1,
        Call::SetAdmin { caller, new_admin } => state.set_admin(caller, new_admin)->Ok_0.1,
        Call::AcceptAdmin => state.accept_admin()->Ok_0.1,
        Call::ProposePause { caller, now } => state.propose_pause(caller, now)->Ok_0.1,
        Call::ExecutePause { caller, now } => state.execute_pause(caller, now)->Ok_0.1,
        Call::CancelPause { caller } => state.cancel_pause(caller)->Ok_0.1,
        Call::ProposeUpgrade { caller, wasm_hash, now } => state.propose_upgrade(
            caller,
            wasm_hash,
            now,
        )->Ok_0.1,
        Call::ExecuteUpgrade { caller, now } => state.execute_upgrade(caller, now)->Ok_0.1,
        Call::CancelUpgrade { caller } => state.cancel_upgrade(caller)->Ok_0.1,
        Call::ProposeSweep { caller, to, amount, now } => state.propose_sweep(
            caller,
            to,
            amount,
            now,
        )->Ok_0.1,
        Call::ExecuteSweep { caller, now, on_ledger } => state.execute_sweep(
            caller,
            now,
            on_ledger,
        )->Ok_0.1,
        Call::CancelSweep { caller } => state.cancel_sweep(caller)->Ok_0.1,
        Call::Prune { .. } => Seq::empty(),
    }
}

/// Every accepted call is announced by an event of its own name that names who
/// has acted. (Pruning announces each marker that it removes instead.)
pub proof fn law_accepted_calls_are_announced(state: VaultModel, call: Call)
    requires
        !(call is Prune),
        state.after(call) is Ok,
    ensures
        publishes(steps_of(state, call), event_name(call), actors_of(state, call)),
{
    lemma_after(state, call);
    let steps: Seq<Action> = steps_of(state, call);
    let at: int = match call {
        Call::Deposit { .. } | Call::ExecuteUpgrade { .. } | Call::ExecuteSweep { .. } => 1,
        Call::Deduct { .. } => 2,
        Call::BatchDeduct { items, .. } => items.len() as int + 1,
        _ => 0,
    };
    assert(steps[at] is Publish);
}

} // verus!
