//! Laws of the names and texts under which the vault is heard.
use soroban_sdk::{Env, Symbol};
use vstd::prelude::*;

use crate::address::AddressKey;
use crate::effects::VaultEvent;
use crate::errors::VaultError;
use crate::host::symbol_text;

verus! {

/// Every event has the name under which it is subscribed to.
pub proof fn law_events_keep_their_names(event: VaultEvent)
    ensures
        event is Init ==> event.name() == "init"@,
        event is Deposit ==> event.name() == "deposit"@,
        event is Deduct ==> event.name() == "deduct"@,
        event is BatchDeduct ==> event.name() == "deduct"@,
        event is SetAuthorizedCaller ==> event.name() == "set_authorized_caller"@,
        event is VaultPaused ==> event.name() == "vault_paused"@,
        event is VaultUnpaused ==> event.name() == "vault_unpaused"@,
        event is SetMaxDeduct ==> event.name() == "set_max_deduct"@,
        event is SetSettlement ==> event.name() == "set_settlement"@,
        event is TimelockWindowChanged ==> event.name() == "tl_window_changed"@,
        event is AdminNominated ==> event.name() == "admin_nominated"@,
        event is AdminAccepted ==> event.name() == "admin_accepted"@,
        event is PauseProposed ==> event.name() == "pause_proposed"@,
        event is PauseExecuted ==> event.name() == "pause_executed"@,
        event is PauseCancelled ==> event.name() == "pause_cancelled"@,
        event is UpgradeProposed ==> event.name() == "upgrade_proposed"@,
        event is UpgradeExecuted ==> event.name() == "upgrade_executed"@,
        event is Upgraded ==> event.name() == "upgraded"@,
        event is UpgradeCancelled ==> event.name() == "upgrade_cancelled"@,
        event is SweepProposed ==> event.name() == "sweep_proposed"@,
        event is SweepExecuted ==> event.name() == "sweep_executed"@,
        event is Distribute ==> event.name() == "distribute"@,
        event is SweepCancelled ==> event.name() == "sweep_cancelled"@,
        event is RequestIdPruned ==> event.name() == "request_id_pruned"@,
        event is ReserveCapSet ==> event.name() == "reserve_cap_set"@,
{
}

/// Every event names who has acted right behind its name, and with a change of
/// admin the other admin, with a reserve cap its token.
pub proof fn law_events_name_their_actors(event: VaultEvent)
    ensures
        event matches VaultEvent::Init { payload } ==> event.actor_topics().len() == 1
            && event.actor_topics()[0] == payload.owner,
        event matches VaultEvent::Deposit { caller, .. } ==> event.actor_topics().len() == 1
            && event.actor_topics()[0] == caller,
        event matches VaultEvent::Deduct { caller, .. } ==> event.actor_topics().len() == 1
            && event.actor_topics()[0] == caller,
        event matches VaultEvent::BatchDeduct { caller, .. } ==> event.actor_topics().len() == 1
            && event.actor_topics()[0] == caller,
        event matches VaultEvent::SetAuthorizedCaller { caller } ==> event.actor_topics().len() == 1
            && event.actor_topics()[0] == caller,
        event matches VaultEvent::VaultPaused { caller } ==> event.actor_topics().len() == 1
            && event.actor_topics()[0] == caller,
        event matches VaultEvent::VaultUnpaused { caller } ==> event.actor_topics().len() == 1
            && event.actor_topics()[0] == caller,
        event matches VaultEvent::SetMaxDeduct { caller, .. } ==> event.actor_topics().len() == 1
            && event.actor_topics()[0] == caller,
        event matches VaultEvent::SetSettlement { caller, .. } ==> event.actor_topics().len() == 1
            && event.actor_topics()[0] == caller,
        event matches VaultEvent::TimelockWindowChanged { caller, .. }
            ==> event.actor_topics().len() == 1
            && event.actor_topics()[0] == caller,
        event matches VaultEvent::AdminNominated { caller, new_admin }
            ==> event.actor_topics().len() == 2
            && event.actor_topics()[0] == caller
            && event.actor_topics()[1] == new_admin,
        event matches VaultEvent::AdminAccepted { old_admin, new_admin }
            ==> event.actor_topics().len() == 2
            && event.actor_topics()[0] == old_admin
            && event.actor_topics()[1] == new_admin,
        event matches VaultEvent::PauseProposed { caller, .. } ==> event.actor_topics().len() == 1
            && event.actor_topics()[0] == caller,
        event matches VaultEvent::PauseExecuted { caller, .. } ==> event.actor_topics().len() == 1
            && event.actor_topics()[0] == caller,
        event matches VaultEvent::PauseCancelled { caller, .. } ==> event.actor_topics().len() == 1
            && event.actor_topics()[0] == caller,
        event matches VaultEvent::UpgradeProposed { caller, .. } ==> event.actor_topics().len() == 1
            && event.actor_topics()[0] == caller,
        event matches VaultEvent::UpgradeExecuted { caller, .. } ==> event.actor_topics().len() == 1
            && event.actor_topics()[0] == caller,
        event matches VaultEvent::Upgraded { caller, .. } ==> event.actor_topics().len() == 1
            && event.actor_topics()[0] == caller,
        event matches VaultEvent::UpgradeCancelled { caller, .. }
            ==> event.actor_topics().len() == 1
            && event.actor_topics()[0] == caller,
        event matches VaultEvent::SweepProposed { caller, .. } ==> event.actor_topics().len() == 1
            && event.actor_topics()[0] == caller,
        event matches VaultEvent::SweepExecuted { caller, .. } ==> event.actor_topics().len() == 1
            && event.actor_topics()[0] == caller,
        event matches VaultEvent::Distribute { to, .. } ==> event.actor_topics().len() == 1
            && event.actor_topics()[0] == to,
        event matches VaultEvent::SweepCancelled { caller, .. } ==> event.actor_topics().len() == 1
            && event.actor_topics()[0] == caller,
        event matches VaultEvent::RequestIdPruned { caller, .. } ==> event.actor_topics().len() == 1
            && event.actor_topics()[0] == caller,
        event matches VaultEvent::ReserveCapSet { caller, token, .. }
            ==> event.actor_topics().len() == 2
            && event.actor_topics()[0] == caller
            && event.actor_topics()[1] == token,
{
}

/// The refusals that end a call without an error code have their fixed texts, and
/// the others have none.
pub proof fn law_refusals_keep_their_texts(error: VaultError)
    ensures
        error is AlreadyInitialized ==> error.abort_text() == Some("Already initialized"@),
        error is NotInitialized ==> error.abort_text() is None,
        error is MinDepositNotPositive ==> error.abort_text() == Some(
            "min_deposit must be positive"@,
        ),
        error is MaxDeductNotPositive ==> error.abort_text() == Some(
            "max_deduct must be positive"@,
        ),
        error is MinDepositExceedsMaxDeduct ==> error.abort_text() == Some(
            "min_deposit cannot exceed max_deduct"@,
        ),
        error is Paused ==> error.abort_text() == Some("Contract paused"@),
        error is NotAuthorizedDepositor ==> error.abort_text() == Some("Not authorized depositor"@),
        error is NotAuthorizedCaller ==> error.abort_text() == Some("Not authorized caller"@),
        error is NotOwner ==> error.abort_text() == Some("Not owner"@),
        error is Unauthorized ==> error.abort_text() is None,
        error is AmountNotPositive ==> error.abort_text() == Some("amount must be positive"@),
        error is DepositBelowMinimum ==> error.abort_text() == Some("deposit below minimum"@),
        error is DeductBelowMinimum ==> error.abort_text() == Some("deduct below minimum"@),
        error is ExceedsMaxDeduct ==> error.abort_text() == Some(
            "deduct amount exceeds max_deduct"@,
        ),
        error is ExceedsReserveCap ==> error.abort_text() is None,
        error is InsufficientBalance ==> error.abort_text() == Some("insufficient balance"@),
        error is DuplicateRequestId ==> error.abort_text() is None,
        error is MalformedItem ==> error.abort_text() is None,
        error is Overflow ==> error.abort_text() == Some("overflow"@),
        error is NoAdminTransferPending ==> error.abort_text() is None,
        error is InvalidTimelockWindow ==> error.abort_text() is None,
        error is TimelockOverflow ==> error.abort_text() is None,
        error is ProposalNotFound ==> error.abort_text() is None,
        error is TimelockNotExpired ==> error.abort_text() is None,
        error is InvalidHotBps ==> error.abort_text() is None,
        error is InvalidRebalanceThreshold ==> error.abort_text() is None,
        error is ColdSignersEmpty ==> error.abort_text() is None,
        error is InvalidColdThreshold ==> error.abort_text() is None,
        error is DuplicateColdSigner ==> error.abort_text() is None,
{
}

/// An event is published under its name, with its actors behind it; and a refusal
/// is given its text.
pub proof fn law_events_are_published_under_their_names(
    event: &VaultEvent,
    env: &Env,
    topic: Symbol,
    actors: Vec<AddressKey>,
    error: &VaultError,
    message: Option<&'static str>,
)
    ensures
        call_ensures(VaultEvent::topic, (event, env), topic) ==> symbol_text(topic)
            == event.name(),
        call_ensures(VaultEvent::actors, (event,), actors) ==> actors@ == event.actor_topics(),
        call_ensures(VaultError::abort_message, (error,), message) ==> match error.abort_text() {
            Some(text) => message is Some && message->Some_0@ == text,
            None => message is None,
        },
{
}

} // verus!
