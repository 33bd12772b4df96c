//! Laws of who may call what.
use vstd::prelude::*;

use crate::address::AddressKey;
use crate::calls::{lemma_after, Call};
use crate::effects::Action;
use crate::errors::VaultError;
use crate::laws::frame::law_calls_change_only_their_own;
use crate::model::VaultModel;

verus! {

/// Whether a call is the admin's, made by `who`.
pub open spec fn is_admin_call(call: Call, who: AddressKey) -> bool {
    match call {
        Call::SetTimelockWindow { caller, .. } => caller == who,
        Call::SetAdmin { caller, .. } => caller == who,
        Call::ProposePause { caller, .. } => caller == who,
        Call::ExecutePause { caller, .. } => caller == who,
        Call::CancelPause { caller } => caller == who,
        Call::ProposeUpgrade { caller, .. } => caller == who,
        Call::ExecuteUpgrade { caller, .. } => caller == who,
        Call::CancelUpgrade { caller } => caller == who,
        Call::ProposeSweep { caller, .. } => caller == who,
        Call::ExecuteSweep { caller, .. } => caller == who,
        Call::CancelSweep { caller } => caller == who,
        _ => false,
    }
}

/// Whether a call is the owner's, made by `who`, and answered with an error code.
pub open spec fn is_owner_call(call: Call, who: AddressKey) -> bool {
    match call {
        Call::SetReserveCap { caller, .. } => caller == who,
        Call::Prune { caller, .. } => caller == who,
        _ => false,
    }
}

/// Whether a call is the owner's, made by `who`, and aborted where it is refused.
pub open spec fn is_aborting_owner_call(call: Call, who: AddressKey) -> bool {
    match call {
        Call::SetAuthorizedCaller { caller } => caller == who,
        Call::Pause { caller } => caller == who,
        Call::Unpause { caller } => caller == who,
        Call::SetMaxDeduct { caller, .. } => caller == who,
        Call::SetSettlement { caller, .. } => caller == who,
        _ => false,
    }
}

/// Whether a call is a deduction by `who`.
pub open spec fn is_deduction(call: Call, who: AddressKey) -> bool {
    match call {
        Call::Deduct { caller, .. } => caller == who,
        Call::BatchDeduct { caller, .. } => caller == who,
        _ => false,
    }
}

/// Whoever is not the admin is refused the admin's calls, before anything else
/// about the call is looked at, and the vault stays as it is.
pub proof fn law_only_the_admin_administers(state: VaultModel, call: Call, who: AddressKey)
    requires
        state.initialized(),
        who != state.current().admin,
        is_admin_call(call, who),
    ensures
        state.after(call) == Err::<(VaultModel, int), VaultError>(VaultError::Unauthorized),
        state.next(call) == state,
{
    lemma_after(state, call);
}

/// Whoever is not the owner is refused the owner's calls, before anything else
/// about the call is looked at, and the vault stays as it is.
pub proof fn law_only_the_owner_configures(state: VaultModel, call: Call, who: AddressKey)
    requires
        state.initialized(),
        who != state.current().owner,
        is_owner_call(call, who) || is_aborting_owner_call(call, who),
    ensures
        is_owner_call(call, who) ==> state.after(call) == Err::<(VaultModel, int), VaultError>(
            VaultError::Unauthorized,
        ),
        is_aborting_owner_call(call, who) ==> state.after(call) == Err::<
            (VaultModel, int),
            VaultError,
        >(VaultError::NotOwner),
        state.next(call) == state,
{
    lemma_after(state, call);
}

/// Whoever is not the authorized caller can deduct nothing, not even the owner.
pub proof fn law_only_the_authorized_caller_deducts(
    state: VaultModel,
    call: Call,
    who: AddressKey,
)
    requires
        state.initialized(),
        who != state.current().authorized_caller,
        is_deduction(call, who),
    ensures
        state.after(call) == Err::<(VaultModel, int), VaultError>(VaultError::NotAuthorizedCaller),
        state.next(call) == state,
{
    lemma_after(state, call);
}

/// Only the owner and the allowed depositors can deposit.
pub proof fn law_only_depositors_deposit(state: VaultModel, caller: AddressKey, amount: i128)
    requires
        state.initialized(),
        caller != state.current().owner,
        !state.depositors.contains(caller),
    ensures
        state.deposit(caller, amount) is Err,
        state.deposit(caller, amount) matches Err(error) ==> error
            == VaultError::NotAuthorizedDepositor || error == VaultError::Paused || error
            == VaultError::AmountNotPositive || error == VaultError::DepositBelowMinimum,
{
}

/// Before `init` has run every call but `init` is refused, whoever makes it.
pub proof fn law_nothing_works_before_init(state: VaultModel, call: Call)
    requires
        state.wf(),
        !state.initialized(),
        !(call is Init),
    ensures
        state.next(call) == state,
        state.after(call) == Err::<(VaultModel, int), VaultError>(
            if call is AcceptAdmin {
                VaultError::NoAdminTransferPending
            } else {
                VaultError::NotInitialized
            },
        ),
{
    lemma_after(state, call);
}

/// The admin is the owner at first.
pub proof fn law_owner_is_the_first_admin(
    state: VaultModel,
    owner: AddressKey,
    usdc_token: AddressKey,
    initial_balance: i128,
    authorized_caller: AddressKey,
    min_deposit: i128,
    revenue_pool: Option<AddressKey>,
    max_deduct: i128,
    settlement: AddressKey,
)
    ensures
        state.init(
            owner,
            usdc_token,
            initial_balance,
            authorized_caller,
            min_deposit,
            revenue_pool,
            max_deduct,
            settlement,
        ) matches Ok((next, _)) ==> next.current().owner == owner && next.current().admin == owner,
{
}

/// Nominating an admin leaves the role where it is.
pub proof fn law_nomination_changes_no_admin(
    state: VaultModel,
    caller: AddressKey,
    new_admin: AddressKey,
)
    ensures
        state.set_admin(caller, new_admin) matches Ok((next, _)) ==> next.current().admin
            == state.current().admin && next.pending_admin == Some(new_admin),
{
}

/// The role changes hands only when the nominee accepts it; then the nominee
/// holds it, nobody is nominated any more, and the previous admin is refused
/// like anyone else.
pub proof fn law_acceptance_hands_the_role_over(state: VaultModel, call: Call)
    requires
        state.initialized(),
        state.next(call).current().admin != state.current().admin,
    ensures
        call is AcceptAdmin,
        state.pending_admin == Some(state.next(call).current().admin),
        state.next(call).pending_admin is None,
        state.next(call).admin_refusal(state.current().admin) == Some(VaultError::Unauthorized),
        state.next(call).admin_refusal(state.pending_admin->Some_0) is None,
        state.next(call).accept_admin() == Err::<(VaultModel, Seq<Action>), VaultError>(
            VaultError::NoAdminTransferPending,
        ),
{
    if call is AcceptAdmin || call is Init {
        reveal(VaultModel::after);
    } else if state.after(call) is Ok {
        law_calls_change_only_their_own(state, call);
    }
}

} // verus!
