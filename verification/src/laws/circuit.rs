//! Laws of the pause circuit breaker.
use vstd::prelude::*;

use crate::address::AddressKey;
use crate::calls::{lemma_after, Call};
use crate::errors::VaultError;
use crate::laws::frame::law_calls_change_only_their_own;
use crate::model::VaultModel;
use crate::vault::Settings;

verus! {

/// While the vault is paused, deposits and deductions, single or in a batch, are
/// refused, whoever asks and for whatever amount.
pub proof fn law_paused_vault_takes_and_gives_nothing(state: VaultModel, call: Call)
    requires
        state.paused(),
        call is Deposit || call is Deduct || call is BatchDeduct,
    ensures
        state.after(call) is Err,
        state.next(call) == state,
        call is Deposit ==> state.after(call) == Err::<(VaultModel, int), VaultError>(
            VaultError::Paused,
        ),
        call matches Call::Deduct { caller, .. } ==> (caller == state.current().authorized_caller
            ==> state.after(call) == Err::<(VaultModel, int), VaultError>(VaultError::Paused)),
        call matches Call::BatchDeduct { caller, .. } ==> (caller
            == state.current().authorized_caller ==> state.after(call) == Err::<
            (VaultModel, int),
            VaultError,
        >(VaultError::Paused)),
{
    lemma_after(state, call);
}

/// The vault with the circuit breaker in the given position.
pub open spec fn with_paused(state: VaultModel, paused: bool) -> VaultModel {
    VaultModel { settings: Some(Settings { paused, ..state.current() }), ..state }
}

/// Whether two states accept the same call or refuse it with the same error.
pub open spec fn same_verdict(one: VaultModel, other: VaultModel, call: Call) -> bool {
    match (one.after(call), other.after(call)) {
        (Ok(_), Ok(_)) => true,
        (Err(error), Err(other_error)) => error == other_error,
        _ => false,
    }
}

/// All other calls are judged as if the vault were not paused: configuration,
/// proposals and sweeps remain available.
pub proof fn law_pause_stops_nothing_else(state: VaultModel, call: Call, paused: bool)
    requires
        state.initialized(),
        !(call is Deposit) && !(call is Deduct) && !(call is BatchDeduct),
    ensures
        same_verdict(state, with_paused(state, paused), call),
{
    lemma_after(state, call);
    lemma_after(with_paused(state, paused), call);
}

/// A running vault is stopped only by its owner, or by its admin with a proposal
/// whose deadline has been reached.
pub proof fn law_only_owner_or_due_proposal_pauses(state: VaultModel, call: Call)
    requires
        state.initialized(),
        !state.paused(),
        state.next(call).paused(),
    ensures
        match call {
            Call::Pause { caller } => caller == state.current().owner,
            Call::ExecutePause { caller, now } => caller == state.current().admin
                && state.pending_pause is Some && now >= state.pending_pause->Some_0.execute_after,
            _ => false,
        },
{
    if call is Pause || call is Unpause || call is ExecutePause || call is Init {
        reveal(VaultModel::after);
    } else if state.after(call) is Ok {
        law_calls_change_only_their_own(state, call);
    }
}

/// Only the owner resumes a stopped vault.
pub proof fn law_only_owner_resumes(state: VaultModel, call: Call)
    requires
        state.paused(),
        !state.next(call).paused(),
    ensures
        call == (Call::Unpause { caller: state.current().owner }),
{
    if call is Pause || call is Unpause || call is ExecutePause || call is Init {
        reveal(VaultModel::after);
    } else if state.after(call) is Ok {
        law_calls_change_only_their_own(state, call);
    }
}

/// Pausing and resuming gives back the running vault.
pub proof fn law_resuming_undoes_pausing(state: VaultModel, caller: AddressKey)
    requires
        state.initialized(),
        !state.paused(),
        caller == state.current().owner,
    ensures
        state.pause(caller) matches Ok((stopped, _)) && stopped.paused() && (stopped.unpause(
            caller,
        ) matches Ok((resumed, _)) && resumed == state),
{
}

} // verus!
