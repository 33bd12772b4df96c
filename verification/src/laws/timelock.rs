//! Laws of timelocked proposals.
use vstd::prelude::*;

use crate::address::AddressKey;
use crate::calls::Call;
use crate::effects::{Action, VaultEvent};
use crate::errors::VaultError;
use crate::laws::configuration::announces;
use crate::laws::frame::law_calls_change_only_their_own;
use crate::model::VaultModel;
use crate::timelock::{
    PendingPause, PendingSweep, PendingUpgrade, MAX_TIMELOCK_SECONDS, MIN_TIMELOCK_SECONDS,
};
use crate::vault::Settings;

verus! {

/// Whether a call ends with this error.
pub open spec fn refused_with(
    outcome: Result<(VaultModel, Seq<Action>), VaultError>,
    error: VaultError,
) -> bool {
    outcome matches Err(reported) && reported == error
}

/// Whether a call is about the pause slot.
pub open spec fn touches_pause(call: Call) -> bool {
    call is ProposePause || call is ExecutePause || call is CancelPause
}

/// Whether a call is about the upgrade slot.
pub open spec fn touches_upgrade(call: Call) -> bool {
    call is ProposeUpgrade || call is ExecuteUpgrade || call is CancelUpgrade
}

/// Whether a call is about the sweep slot.
pub open spec fn touches_sweep(call: Call) -> bool {
    call is ProposeSweep || call is ExecuteSweep || call is CancelSweep
}

/// A slot that none of the calls is about stays as it is.
proof fn lemma_slots_stay(state: VaultModel, calls: Seq<Call>)
    ensures
        (forall|i: int| 0 <= i < calls.len() ==> !touches_pause(#[trigger] calls[i]))
            ==> state.run(calls).pending_pause == state.pending_pause,
        (forall|i: int| 0 <= i < calls.len() ==> !touches_upgrade(#[trigger] calls[i]))
            ==> state.run(calls).pending_upgrade == state.pending_upgrade,
        (forall|i: int| 0 <= i < calls.len() ==> !touches_sweep(#[trigger] calls[i]))
            ==> state.run(calls).pending_sweep == state.pending_sweep,
    decreases calls.len(),
{
    if calls.len() > 0 {
        let fewer: Seq<Call> = calls.drop_last();
        lemma_slots_stay(state, fewer);
        assert forall|i: int| 0 <= i < fewer.len() implies #[trigger] fewer[i] == calls[i] by {}
        assert(calls.last() == calls[calls.len() - 1]);
        if calls.last() is Init {
            reveal(VaultModel::after);
        } else if state.run(fewer).after(calls.last()) is Ok {
            law_calls_change_only_their_own(state.run(fewer), calls.last());
        }
    }
}

/// Whatever else is called after a pause has been proposed, other proposals and
/// changes of the window and of the admin among it, the admin cannot execute it
/// before the window has passed that held when it was proposed, and can from
/// then on.
pub proof fn law_pause_waits_for_its_deadline(
    state: VaultModel,
    caller: AddressKey,
    proposed_at: u64,
    calls: Seq<Call>,
    executor: AddressKey,
    now: u64,
)
    requires
        state.propose_pause(caller, proposed_at) is Ok,
        forall|i: int| 0 <= i < calls.len() ==> !touches_pause(#[trigger] calls[i]),
    ensures
        ({
            let later = state.propose_pause(caller, proposed_at)->Ok_0.0.run(calls);
            let outcome = later.execute_pause(executor, now);
            later.admin_refusal(executor) is None ==> {
                &&& now < proposed_at + state.window() ==> refused_with(
                    outcome,
                    VaultError::TimelockNotExpired,
                )
                &&& now >= proposed_at + state.window() ==> outcome is Ok
            }
        }),
{
    let proposed: VaultModel = state.propose_pause(caller, proposed_at)->Ok_0.0;
    lemma_slots_stay(proposed, calls);
}

/// A pause that has been executed or cancelled cannot be executed again: there is
/// no proposal any more.
pub proof fn law_pause_is_consumed(
    state: VaultModel,
    caller: AddressKey,
    now: u64,
    later: u64,
)
    ensures
        state.execute_pause(caller, now) matches Ok((next, _))
            ==> next.pending_pause is None && refused_with(
            next.execute_pause(caller, later),
            VaultError::ProposalNotFound,
        ),
        state.cancel_pause(caller) matches Ok((next, _))
            ==> next.pending_pause is None && refused_with(
            next.execute_pause(caller, later),
            VaultError::ProposalNotFound,
        ),
{
}

/// The admin can cancel at any time, and is told whether there was a proposal.
pub proof fn law_pause_can_always_be_cancelled(state: VaultModel, caller: AddressKey)
    requires
        state.admin_refusal(caller) is None,
    ensures
        state.cancel_pause(caller) matches Ok((_, steps)) && steps == seq![
            Action::Publish {
                event: VaultEvent::PauseCancelled {
                    caller,
                    had_proposal: state.pending_pause is Some,
                },
            },
        ],
{
}

/// Proposing a pause again replaces the earlier proposal and starts the wait anew.
pub proof fn law_pause_proposed_again_waits_anew(
    state: VaultModel,
    caller: AddressKey,
    now: u64,
)
    ensures
        state.propose_pause(caller, now) matches Ok((next, _)) ==> {
            &&& next.pending_pause is Some
            &&& next.pending_pause->Some_0.proposed_at == now
            &&& next.pending_pause->Some_0.execute_after == now + state.window()
        },
{
}

/// Whatever else is called after an upgrade has been proposed, other proposals and
/// changes of the window and of the admin among it, the admin cannot execute it
/// before the window has passed that held when it was proposed, and can from
/// then on.
pub proof fn law_upgrade_waits_for_its_deadline(
    state: VaultModel,
    caller: AddressKey,
    wasm_hash: [u8; 32],
    proposed_at: u64,
    calls: Seq<Call>,
    executor: AddressKey,
    now: u64,
)
    requires
        state.propose_upgrade(caller, wasm_hash, proposed_at) is Ok,
        forall|i: int| 0 <= i < calls.len() ==> !touches_upgrade(#[trigger] calls[i]),
    ensures
        ({
            let later = state.propose_upgrade(caller, wasm_hash, proposed_at)->Ok_0.0.run(calls);
            let outcome = later.execute_upgrade(executor, now);
            later.admin_refusal(executor) is None ==> {
                &&& now < proposed_at + state.window() ==> refused_with(
                    outcome,
                    VaultError::TimelockNotExpired,
                )
                &&& now >= proposed_at + state.window() ==> outcome is Ok
            }
        }),
{
    let proposed: VaultModel = state.propose_upgrade(caller, wasm_hash, proposed_at)->Ok_0.0;
    lemma_slots_stay(proposed, calls);
}

/// An upgrade that has been executed or cancelled cannot be executed again: there is
/// no proposal any more.
pub proof fn law_upgrade_is_consumed(
    state: VaultModel,
    caller: AddressKey,
    now: u64,
    later: u64,
)
    ensures
        state.execute_upgrade(caller, now) matches Ok((next, _))
            ==> next.pending_upgrade is None && refused_with(
            next.execute_upgrade(caller, later),
            VaultError::ProposalNotFound,
        ),
        state.cancel_upgrade(caller) matches Ok((next, _))
            ==> next.pending_upgrade is None && refused_with(
            next.execute_upgrade(caller, later),
            VaultError::ProposalNotFound,
        ),
{
}

/// The admin can cancel at any time, and is told whether there was a proposal.
pub proof fn law_upgrade_can_always_be_cancelled(state: VaultModel, caller: AddressKey)
    requires
        state.admin_refusal(caller) is None,
    ensures
        state.cancel_upgrade(caller) matches Ok((_, steps)) && steps == seq![
            Action::Publish {
                event: VaultEvent::UpgradeCancelled {
                    caller,
                    had_proposal: state.pending_upgrade is Some,
                },
            },
        ],
{
}

/// Proposing an upgrade again replaces the earlier proposal and starts the wait anew.
pub proof fn law_upgrade_proposed_again_waits_anew(
    state: VaultModel,
    caller: AddressKey,
    wasm_hash: [u8; 32],
    now: u64,
)
    ensures
        state.propose_upgrade(caller, wasm_hash, now) matches Ok((next, _)) ==> {
            &&& next.pending_upgrade is Some
            &&& next.pending_upgrade->Some_0.proposed_at == now
            &&& next.pending_upgrade->Some_0.execute_after == now + state.window()
            &&& next.pending_upgrade->Some_0.wasm_hash == wasm_hash
        },
{
}

/// Whatever else is called after a sweep has been proposed, other proposals and
/// changes of the window and of the admin among it, the admin cannot execute it
/// before the window has passed that held when it was proposed, and can from
/// then on, where the vault holds enough.
pub proof fn law_sweep_waits_for_its_deadline(
    state: VaultModel,
    caller: AddressKey,
    to: AddressKey,
    amount: i128,
    proposed_at: u64,
    calls: Seq<Call>,
    executor: AddressKey,
    now: u64,
    on_ledger: i128,
)
    requires
        state.propose_sweep(caller, to, amount, proposed_at) is Ok,
        forall|i: int| 0 <= i < calls.len() ==> !touches_sweep(#[trigger] calls[i]),
    ensures
        ({
            let later = state.propose_sweep(caller, to, amount, proposed_at)->Ok_0.0.run(calls);
            let outcome = later.execute_sweep(executor, now, on_ledger);
            later.admin_refusal(executor) is None ==> {
                &&& now < proposed_at + state.window() ==> refused_with(
                    outcome,
                    VaultError::TimelockNotExpired,
                )
                &&& now >= proposed_at + state.window() && on_ledger >= amount ==> outcome is Ok
                &&& now >= proposed_at + state.window() && on_ledger < amount ==> refused_with(
                    outcome,
                    VaultError::InsufficientBalance,
                )
            }
        }),
{
    let proposed: VaultModel = state.propose_sweep(caller, to, amount, proposed_at)->Ok_0.0;
    lemma_slots_stay(proposed, calls);
}

/// A sweep that has been executed or cancelled cannot be executed again: there is
/// no proposal any more.
pub proof fn law_sweep_is_consumed(
    state: VaultModel,
    caller: AddressKey,
    now: u64,
    on_ledger: i128,
    later: u64,
    later_on_ledger: i128,
)
    ensures
        state.execute_sweep(caller, now, on_ledger) matches Ok((next, _))
            ==> next.pending_sweep is None && refused_with(
            next.execute_sweep(caller, later, later_on_ledger),
            VaultError::ProposalNotFound,
        ),
        state.cancel_sweep(caller) matches Ok((next, _))
            ==> next.pending_sweep is None && refused_with(
            next.execute_sweep(caller, later, later_on_ledger),
            VaultError::ProposalNotFound,
        ),
{
}

/// The admin can cancel at any time, and is told whether there was a proposal.
pub proof fn law_sweep_can_always_be_cancelled(state: VaultModel, caller: AddressKey)
    requires
        state.admin_refusal(caller) is None,
    ensures
        state.cancel_sweep(caller) matches Ok((_, steps)) && steps == seq![
            Action::Publish {
                event: VaultEvent::SweepCancelled {
                    caller,
                    had_proposal: state.pending_sweep is Some,
                },
            },
        ],
{
}

/// Proposing a sweep again replaces the earlier proposal and starts the wait anew.
pub proof fn law_sweep_proposed_again_waits_anew(
    state: VaultModel,
    caller: AddressKey,
    to: AddressKey,
    amount: i128,
    now: u64,
)
    ensures
        state.propose_sweep(caller, to, amount, now) matches Ok((next, _)) ==> {
            &&& next.pending_sweep is Some
            &&& next.pending_sweep->Some_0.proposed_at == now
            &&& next.pending_sweep->Some_0.execute_after == now + state.window()
            &&& next.pending_sweep->Some_0.to == to
            &&& next.pending_sweep->Some_0.amount == amount
        },
{
}

/// The admin, and nobody else, proposes a pause. It falls due when the window
/// that holds, two days where none is configured, has passed, where the clock
/// reaches that far; an earlier proposal is replaced, and nothing else changes.
pub proof fn law_pause_is_proposed(
    state: VaultModel,
    caller: AddressKey,
    now: u64,
)
    ensures
        ({
            let outcome = state.propose_pause(caller, now);
            let window = if state.timelock_window is Some {
                state.timelock_window->Some_0
            } else {
                172_800
            };
            if state.settings is None {
                refused_with(outcome, VaultError::NotInitialized)
            } else if caller != state.settings->Some_0.admin {
                refused_with(outcome, VaultError::Unauthorized)
            } else if now + window > u64::MAX {
                refused_with(outcome, VaultError::TimelockOverflow)
            } else {
                let execute_after = (now + window) as u64;
                announces(
                    outcome,
                    VaultModel {
                        pending_pause: Some(
                            PendingPause { proposed_at: now, execute_after },
                        ),
                        ..state
                    },
                    VaultEvent::PauseProposed { caller, proposed_at: now, execute_after },
                )
            }
        }),
{
}

/// The admin, and nobody else, clears the pause slot, whether or not it holds a
/// proposal, and is told which; nothing else changes.
pub proof fn law_pause_is_cancelled(state: VaultModel, caller: AddressKey)
    ensures
        ({
            let outcome = state.cancel_pause(caller);
            if state.settings is None {
                refused_with(outcome, VaultError::NotInitialized)
            } else if caller != state.settings->Some_0.admin {
                refused_with(outcome, VaultError::Unauthorized)
            } else {
                announces(
                    outcome,
                    VaultModel { pending_pause: None, ..state },
                    VaultEvent::PauseCancelled {
                        caller,
                        had_proposal: state.pending_pause is Some,
                    },
                )
            }
        }),
{
}

/// The admin, and nobody else, proposes an upgrade. It falls due when the window
/// that holds, two days where none is configured, has passed, where the clock
/// reaches that far; an earlier proposal is replaced, and nothing else changes.
pub proof fn law_upgrade_is_proposed(
    state: VaultModel,
    caller: AddressKey,
    wasm_hash: [u8; 32],
    now: u64,
)
    ensures
        ({
            let outcome = state.propose_upgrade(caller, wasm_hash, now);
            let window = if state.timelock_window is Some {
                state.timelock_window->Some_0
            } else {
                172_800
            };
            if state.settings is None {
                refused_with(outcome, VaultError::NotInitialized)
            } else if caller != state.settings->Some_0.admin {
                refused_with(outcome, VaultError::Unauthorized)
            } else if now + window > u64::MAX {
                refused_with(outcome, VaultError::TimelockOverflow)
            } else {
                let execute_after = (now + window) as u64;
                announces(
                    outcome,
                    VaultModel {
                        pending_upgrade: Some(
                            PendingUpgrade { wasm_hash, proposed_at: now, execute_after },
                        ),
                        ..state
                    },
                    VaultEvent::UpgradeProposed {
                        caller,
                        wasm_hash,
                        proposed_at: now,
                        execute_after,
                    },
                )
            }
        }),
{
}

/// The admin, and nobody else, clears the upgrade slot, whether or not it holds a
/// proposal, and is told which; nothing else changes.
pub proof fn law_upgrade_is_cancelled(state: VaultModel, caller: AddressKey)
    ensures
        ({
            let outcome = state.cancel_upgrade(caller);
            if state.settings is None {
                refused_with(outcome, VaultError::NotInitialized)
            } else if caller != state.settings->Some_0.admin {
                refused_with(outcome, VaultError::Unauthorized)
            } else {
                announces(
                    outcome,
                    VaultModel { pending_upgrade: None, ..state },
                    VaultEvent::UpgradeCancelled {
                        caller,
                        had_proposal: state.pending_upgrade is Some,
                    },
                )
            }
        }),
{
}

/// The admin, and nobody else, proposes a sweep of a positive amount. It falls due when the window
/// that holds, two days where none is configured, has passed, where the clock
/// reaches that far; an earlier proposal is replaced, and nothing else changes.
pub proof fn law_sweep_is_proposed(
    state: VaultModel,
    caller: AddressKey,
    to: AddressKey,
    amount: i128,
    now: u64,
)
    ensures
        ({
            let outcome = state.propose_sweep(caller, to, amount, now);
            let window = if state.timelock_window is Some {
                state.timelock_window->Some_0
            } else {
                172_800
            };
            if state.settings is None {
                refused_with(outcome, VaultError::NotInitialized)
            } else if caller != state.settings->Some_0.admin {
                refused_with(outcome, VaultError::Unauthorized)
            } else if amount <= 0 {
                refused_with(outcome, VaultError::AmountNotPositive)
            } else if now + window > u64::MAX {
                refused_with(outcome, VaultError::TimelockOverflow)
            } else {
                let execute_after = (now + window) as u64;
                announces(
                    outcome,
                    VaultModel {
                        pending_sweep: Some(
                            PendingSweep { to, amount, proposed_at: now, execute_after },
                        ),
                        ..state
                    },
                    VaultEvent::SweepProposed {
                        caller,
                        to,
                        amount,
                        proposed_at: now,
                        execute_after,
                    },
                )
            }
        }),
{
}

/// The admin, and nobody else, clears the sweep slot, whether or not it holds a
/// proposal, and is told which; nothing else changes.
pub proof fn law_sweep_is_cancelled(state: VaultModel, caller: AddressKey)
    ensures
        ({
            let outcome = state.cancel_sweep(caller);
            if state.settings is None {
                refused_with(outcome, VaultError::NotInitialized)
            } else if caller != state.settings->Some_0.admin {
                refused_with(outcome, VaultError::Unauthorized)
            } else {
                announces(
                    outcome,
                    VaultModel { pending_sweep: None, ..state },
                    VaultEvent::SweepCancelled {
                        caller,
                        had_proposal: state.pending_sweep is Some,
                    },
                )
            }
        }),
{
}

/// The admin, and nobody else, executes a proposed pause, at its deadline or later:
/// the vault is paused, the slot is cleared, and nothing else changes. Two events
/// tell of it: who executed it and when, and that the vault is paused.
pub proof fn law_pause_is_executed(state: VaultModel, caller: AddressKey, now: u64)
    ensures
        ({
            let outcome = state.execute_pause(caller, now);
            if state.settings is None {
                refused_with(outcome, VaultError::NotInitialized)
            } else if caller != state.settings->Some_0.admin {
                refused_with(outcome, VaultError::Unauthorized)
            } else if state.pending_pause is None {
                refused_with(outcome, VaultError::ProposalNotFound)
            } else if now < state.pending_pause->Some_0.execute_after {
                refused_with(outcome, VaultError::TimelockNotExpired)
            } else {
                &&& outcome matches Ok((next, steps))
                &&& next == (VaultModel {
                    settings: Some(Settings { paused: true, ..state.settings->Some_0 }),
                    pending_pause: None,
                    ..state
                })
                &&& steps.len() == 2
                &&& steps[0] == (Action::Publish {
                    event: VaultEvent::PauseExecuted { caller, executed_at: now },
                })
                &&& steps[1] == (Action::Publish { event: VaultEvent::VaultPaused { caller } })
            }
        }),
{
}

/// No proposal can be executed in less than an hour, and none has to wait for
/// more than thirty days.
pub proof fn law_deadlines_keep_the_bounds(state: VaultModel)
    requires
        state.wf(),
    ensures
        MIN_TIMELOCK_SECONDS <= state.window() <= MAX_TIMELOCK_SECONDS,
        state.pending_pause matches Some(p) ==> p.proposed_at + MIN_TIMELOCK_SECONDS
            <= p.execute_after <= p.proposed_at + MAX_TIMELOCK_SECONDS,
        state.pending_upgrade matches Some(p) ==> p.proposed_at + MIN_TIMELOCK_SECONDS
            <= p.execute_after <= p.proposed_at + MAX_TIMELOCK_SECONDS,
        state.pending_sweep matches Some(p) ==> p.proposed_at + MIN_TIMELOCK_SECONDS
            <= p.execute_after <= p.proposed_at + MAX_TIMELOCK_SECONDS,
{
}

/// The code is replaced only by its admin's due proposal, and what is recorded
/// as the version is the hash that was proposed.
pub proof fn law_version_is_the_executed_proposal(state: VaultModel, call: Call)
    requires
        state.next(call).version != state.version,
    ensures
        call matches Call::ExecuteUpgrade { caller, now } && caller == state.current().admin && (
        state.pending_upgrade matches Some(proposal) && now >= proposal.execute_after && state.next(
            call,
        ).version == Some(proposal.wasm_hash)),
{
    if call is ExecuteUpgrade || call is Init {
        reveal(VaultModel::after);
    } else if state.after(call) is Ok {
        law_calls_change_only_their_own(state, call);
    }
}

} // verus!
