//! What each call may change.
use vstd::prelude::*;

use crate::calls::{lemma_after, Call};
use crate::errors::VaultError;
use crate::model::VaultModel;

verus! {

/// Whether the calls other than `init` have left alone what only some of them
/// are about.
pub open spec fn changes_only_its_own(before: VaultModel, call: Call, next: VaultModel) -> bool {
    let old_settings = before.current();
    let new_settings = next.current();
    &&& before.initialized()
    &&& next.initialized()
    &&& new_settings.owner == old_settings.owner
    &&& new_settings.usdc_token == old_settings.usdc_token
    &&& new_settings.min_deposit == old_settings.min_deposit
    &&& new_settings.revenue_pool == old_settings.revenue_pool
    &&& new_settings.balance == old_settings.balance || call is Deposit || call is Deduct
        || call is BatchDeduct
    &&& new_settings.authorized_caller == old_settings.authorized_caller
        || call is SetAuthorizedCaller
    &&& new_settings.max_deduct == old_settings.max_deduct || call is SetMaxDeduct
    &&& new_settings.settlement == old_settings.settlement || call is SetSettlement
    &&& new_settings.paused == old_settings.paused || call is Pause || call is Unpause
        || call is ExecutePause
    &&& new_settings.admin == old_settings.admin || call is AcceptAdmin
    &&& next.pending_admin == before.pending_admin || call is SetAdmin || call is AcceptAdmin
    &&& next.timelock_window == before.timelock_window || call is SetTimelockWindow
    &&& next.pending_pause == before.pending_pause || call is ProposePause || call is ExecutePause
        || call is CancelPause
    &&& next.pending_upgrade == before.pending_upgrade || call is ProposeUpgrade
        || call is ExecuteUpgrade || call is CancelUpgrade
    &&& next.pending_sweep == before.pending_sweep || call is ProposeSweep || call is ExecuteSweep
        || call is CancelSweep
    &&& next.version == before.version || call is ExecuteUpgrade
    &&& next.depositors == before.depositors
    &&& next.reserve_caps == before.reserve_caps || call is SetReserveCap
    &&& next.processed == before.processed || call is Deduct || call is BatchDeduct || call is Prune
}

/// An accepted call changes only what it is about. In particular the three
/// proposal slots are independent of each other, and a change of the timelock
/// window leaves pending proposals alone.
pub proof fn law_calls_change_only_their_own(state: VaultModel, call: Call)
    requires
        !(call is Init),
        state.after(call) is Ok,
    ensures
        changes_only_its_own(state, call, state.next(call)),
{
    lemma_after(state, call);
}

/// `init` is accepted only before the vault is set up; every other call only
/// afterwards. No call takes the set-up back.
pub proof fn law_init_comes_first_and_once(state: VaultModel, call: Call)
    ensures
        state.after(call) is Ok ==> (state.initialized() <==> !(call is Init)),
        state.after(call) is Ok ==> state.next(call).initialized(),
        state.initialized() ==> state.next(call).initialized(),
        call is Init && state.initialized() ==> state.after(call) == Err::<
            (VaultModel, int),
            VaultError,
        >(VaultError::AlreadyInitialized),
{
    if call is Init {
        assert(state.after(call) is Ok ==> !state.initialized() && state.next(call).initialized())
            by {
            reveal(VaultModel::after);
        }
        assert(state.initialized() ==> state.after(call) == Err::<(VaultModel, int), VaultError>(
            VaultError::AlreadyInitialized,
        )) by {
            reveal(VaultModel::after);
        }
    } else if state.after(call) is Ok {
        law_calls_change_only_their_own(state, call);
    }
}

/// Whatever is called afterwards, the owner, the token, the minimum deposit and
/// the revenue pool stay as `init` has set them.
pub proof fn law_init_is_final(state: VaultModel, calls: Seq<Call>)
    requires
        state.initialized(),
    ensures
        state.run(calls).initialized(),
        state.run(calls).current().owner == state.current().owner,
        state.run(calls).current().usdc_token == state.current().usdc_token,
        state.run(calls).current().min_deposit == state.current().min_deposit,
        state.run(calls).current().revenue_pool == state.current().revenue_pool,
    decreases calls.len(),
{
    if calls.len() > 0 {
        law_init_is_final(state, calls.drop_last());
        let last: VaultModel = state.run(calls.drop_last());
        law_init_comes_first_and_once(last, calls.last());
        if last.after(calls.last()) is Ok {
            law_calls_change_only_their_own(last, calls.last());
        }
    }
}

/// A vault with nothing stored is well-formed, and every call keeps it so.
pub proof fn law_every_call_keeps_the_vault_well_formed(state: VaultModel, call: Call)
    requires
        state.wf(),
    ensures
        state.next(call).wf(),
        VaultModel::empty().wf(),
{
    lemma_after(state, call);
}

/// Every state that can be reached from an empty vault is well-formed.
pub proof fn law_reachable_states_are_well_formed(calls: Seq<Call>)
    ensures
        VaultModel::empty().run(calls).wf(),
    decreases calls.len(),
{
    if calls.len() > 0 {
        law_reachable_states_are_well_formed(calls.drop_last());
        law_every_call_keeps_the_vault_well_formed(
            VaultModel::empty().run(calls.drop_last()),
            calls.last(),
        );
    }
}

} // verus!
