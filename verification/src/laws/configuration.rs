//! Laws of setting the vault up and of configuring it.
use vstd::prelude::*;

use crate::address::AddressKey;
use crate::effects::{Action, InitPayload, VaultEvent};
use crate::errors::VaultError;
use crate::laws::requests::law_pruning_reports_what_it_removes;
use crate::laws::timelock::refused_with;
use crate::model::{kept_markers, pruned_ids, Outcome, VaultModel};
use crate::vault::Settings;

verus! {

/// Whether a call is accepted, leaves this state, and asks for nothing but that
/// this event is published.
pub open spec fn announces(outcome: Outcome, after: VaultModel, event: VaultEvent) -> bool {
    outcome matches Ok((next, steps)) && next == after && steps.len() == 1 && steps[0] == (
    Action::Publish { event })
}

/// `init` is refused where the vault is set up already, and for limits that are not
/// positive or cross each other. Else the vault holds exactly what it was given;
/// it is not paused, and the owner is the admin. Nothing else is touched, and one
/// event tells of the configuration.
pub proof fn law_init_sets_up_what_it_is_given(
    state: VaultModel,
    owner: AddressKey,
    usdc_token: AddressKey,
    initial_balance: i128,
    authorized_caller: AddressKey,
    min_deposit: i128,
    revenue_pool: Option<AddressKey>,
    max_deduct: i128,
    settlement: AddressKey,
)
    ensures
        ({
            let outcome = state.init(
                owner,
                usdc_token,
                initial_balance,
                authorized_caller,
                min_deposit,
                revenue_pool,
                max_deduct,
                settlement,
            );
            if state.settings is Some {
                refused_with(outcome, VaultError::AlreadyInitialized)
            } else if min_deposit <= 0 {
                refused_with(outcome, VaultError::MinDepositNotPositive)
            } else if max_deduct <= 0 {
                refused_with(outcome, VaultError::MaxDeductNotPositive)
            } else if max_deduct < min_deposit {
                refused_with(outcome, VaultError::MinDepositExceedsMaxDeduct)
            } else {
                &&& outcome is Ok
                &&& outcome->Ok_0.0.settings matches Some(now)
                &&& now.owner == owner && now.admin == owner
                &&& now.usdc_token == usdc_token && now.balance == initial_balance
                &&& now.authorized_caller == authorized_caller && now.settlement == settlement
                &&& now.min_deposit == min_deposit && now.max_deduct == max_deduct
                &&& now.revenue_pool == revenue_pool && !now.paused
                &&& announces(
                    outcome,
                    VaultModel { settings: outcome->Ok_0.0.settings, ..state },
                    VaultEvent::Init {
                        payload: InitPayload {
                            owner,
                            usdc_token,
                            initial_balance,
                            min_deposit,
                            max_deduct,
                            settlement,
                        },
                    },
                )
            }
        }),
{
}

/// The owner, and nobody else, makes themselves the authorized caller; nothing else
/// changes.
pub proof fn law_authorized_caller_becomes_the_owner(state: VaultModel, caller: AddressKey)
    ensures
        ({
            let outcome = state.set_authorized_caller(caller);
            if state.settings is None {
                refused_with(outcome, VaultError::NotInitialized)
            } else if caller != state.settings->Some_0.owner {
                refused_with(outcome, VaultError::NotOwner)
            } else {
                announces(
                    outcome,
                    VaultModel {
                        settings: Some(
                            Settings { authorized_caller: caller, ..state.settings->Some_0 },
                        ),
                        ..state
                    },
                    VaultEvent::SetAuthorizedCaller { caller },
                )
            }
        }),
{
}

/// The owner, and nobody else, stops the vault at once; nothing else changes.
pub proof fn law_pause_stops_the_vault(state: VaultModel, caller: AddressKey)
    ensures
        ({
            let outcome = state.pause(caller);
            if state.settings is None {
                refused_with(outcome, VaultError::NotInitialized)
            } else if caller != state.settings->Some_0.owner {
                refused_with(outcome, VaultError::NotOwner)
            } else {
                announces(
                    outcome,
                    VaultModel {
                        settings: Some(Settings { paused: true, ..state.settings->Some_0 }),
                        ..state
                    },
                    VaultEvent::VaultPaused { caller },
                )
            }
        }),
{
}

/// The owner, and nobody else, resumes the vault; nothing else changes.
pub proof fn law_unpause_resumes_the_vault(state: VaultModel, caller: AddressKey)
    ensures
        ({
            let outcome = state.unpause(caller);
            if state.settings is None {
                refused_with(outcome, VaultError::NotInitialized)
            } else if caller != state.settings->Some_0.owner {
                refused_with(outcome, VaultError::NotOwner)
            } else {
                announces(
                    outcome,
                    VaultModel {
                        settings: Some(Settings { paused: false, ..state.settings->Some_0 }),
                        ..state
                    },
                    VaultEvent::VaultUnpaused { caller },
                )
            }
        }),
{
}

/// The owner, and nobody else, changes the deduction limit, to a positive one;
/// nothing else changes.
pub proof fn law_deduction_limit_is_changed(state: VaultModel, caller: AddressKey, max_deduct: i128)
    ensures
        ({
            let outcome = state.set_max_deduct(caller, max_deduct);
            if state.settings is None {
                refused_with(outcome, VaultError::NotInitialized)
            } else if caller != state.settings->Some_0.owner {
                refused_with(outcome, VaultError::NotOwner)
            } else if max_deduct <= 0 {
                refused_with(outcome, VaultError::MaxDeductNotPositive)
            } else {
                announces(
                    outcome,
                    VaultModel {
                        settings: Some(Settings { max_deduct, ..state.settings->Some_0 }),
                        ..state
                    },
                    VaultEvent::SetMaxDeduct { caller, max_deduct },
                )
            }
        }),
{
}

/// The owner, and nobody else, changes the settlement contract; nothing else
/// changes.
pub proof fn law_settlement_contract_is_changed(
    state: VaultModel,
    caller: AddressKey,
    settlement: AddressKey,
)
    ensures
        ({
            let outcome = state.set_settlement(caller, settlement);
            if state.settings is None {
                refused_with(outcome, VaultError::NotInitialized)
            } else if caller != state.settings->Some_0.owner {
                refused_with(outcome, VaultError::NotOwner)
            } else {
                announces(
                    outcome,
                    VaultModel {
                        settings: Some(Settings { settlement, ..state.settings->Some_0 }),
                        ..state
                    },
                    VaultEvent::SetSettlement { caller, settlement },
                )
            }
        }),
{
}

/// The owner, and nobody else, sets the cap of a token, to a positive one; the caps
/// of other tokens and everything else stay. The event tells of the cap that held
/// before, the largest amount where there was none.
pub proof fn law_reserve_cap_is_set(
    state: VaultModel,
    caller: AddressKey,
    token: AddressKey,
    cap: i128,
    other: AddressKey,
)
    ensures
        ({
            let outcome = state.set_reserve_cap(caller, token, cap);
            let previous = if state.reserve_caps.contains_key(token) {
                state.reserve_caps[token]
            } else {
                i128::MAX
            };
            if state.settings is None {
                refused_with(outcome, VaultError::NotInitialized)
            } else if caller != state.settings->Some_0.owner {
                refused_with(outcome, VaultError::Unauthorized)
            } else if cap <= 0 {
                refused_with(outcome, VaultError::AmountNotPositive)
            } else {
                let caps = outcome->Ok_0.0.reserve_caps;
                &&& caps.contains_key(token) && caps[token] == cap
                &&& other != token ==> (caps.contains_key(other)
                    <==> state.reserve_caps.contains_key(other))
                &&& other != token && caps.contains_key(other) ==> caps[other]
                    == state.reserve_caps[other]
                &&& announces(
                    outcome,
                    VaultModel { reserve_caps: caps, ..state },
                    VaultEvent::ReserveCapSet { caller, token, previous, cap },
                )
            }
        }),
{
}

/// The admin, and nobody else, changes the timelock window, to one of an hour to
/// thirty days; nothing else changes.
pub proof fn law_timelock_window_is_changed(state: VaultModel, caller: AddressKey, window: u64)
    ensures
        ({
            let outcome = state.set_timelock_window(caller, window);
            if state.settings is None {
                refused_with(outcome, VaultError::NotInitialized)
            } else if caller != state.settings->Some_0.admin {
                refused_with(outcome, VaultError::Unauthorized)
            } else if window < 60 * 60 || window > 30 * 24 * 60 * 60 {
                refused_with(outcome, VaultError::InvalidTimelockWindow)
            } else {
                announces(
                    outcome,
                    VaultModel { timelock_window: Some(window), ..state },
                    VaultEvent::TimelockWindowChanged { caller, stored: window, window },
                )
            }
        }),
{
}

/// The admin, and nobody else, nominates an admin, in place of an earlier nominee;
/// nothing else changes.
pub proof fn law_admin_is_nominated(state: VaultModel, caller: AddressKey, new_admin: AddressKey)
    ensures
        ({
            let outcome = state.set_admin(caller, new_admin);
            if state.settings is None {
                refused_with(outcome, VaultError::NotInitialized)
            } else if caller != state.settings->Some_0.admin {
                refused_with(outcome, VaultError::Unauthorized)
            } else {
                announces(
                    outcome,
                    VaultModel { pending_admin: Some(new_admin), ..state },
                    VaultEvent::AdminNominated { caller, new_admin },
                )
            }
        }),
{
}

/// Where there is a nominee, they become the admin and nobody is nominated any
/// more; nothing else changes. The event tells of both admins.
pub proof fn law_nominee_becomes_the_admin(state: VaultModel)
    ensures
        ({
            let outcome = state.accept_admin();
            if state.pending_admin is None {
                refused_with(outcome, VaultError::NoAdminTransferPending)
            } else if state.settings is None {
                refused_with(outcome, VaultError::NotInitialized)
            } else {
                let new_admin = state.pending_admin->Some_0;
                let old_admin = state.settings->Some_0.admin;
                announces(
                    outcome,
                    VaultModel {
                        settings: Some(Settings { admin: new_admin, ..state.settings->Some_0 }),
                        pending_admin: None,
                        ..state
                    },
                    VaultEvent::AdminAccepted { old_admin, new_admin },
                )
            }
        }),
{
}

/// The owner, and nobody else, prunes. A list with a value that is no id is
/// refused; else exactly the listed markers are gone, and nothing else changes.
pub proof fn law_pruning_removes_what_is_listed(
    state: VaultModel,
    caller: AddressKey,
    ids: Seq<Option<Seq<char>>>,
    id: Seq<char>,
)
    ensures
        ({
            let outcome = state.prune(caller, ids);
            if state.settings is None {
                outcome == Err::<(VaultModel, Seq<Seq<char>>), VaultError>(
                    VaultError::NotInitialized,
                )
            } else if caller != state.settings->Some_0.owner {
                outcome == Err::<(VaultModel, Seq<Seq<char>>), VaultError>(VaultError::Unauthorized)
            } else if exists|i: int| 0 <= i < ids.len() && #[trigger] ids[i] is None {
                outcome == Err::<(VaultModel, Seq<Seq<char>>), VaultError>(
                    VaultError::MalformedItem,
                )
            } else {
                &&& outcome matches Ok((next, removed))
                &&& next == (VaultModel { processed: next.processed, ..state })
                &&& next.processed.contains(id) <==> state.processed.contains(id) && !ids.contains(
                    Some(id),
                )
                &&& removed.no_duplicates()
                &&& removed.contains(id) <==> state.processed.contains(id) && ids.contains(Some(id))
            }
        }),
{
    law_pruning_reports_what_it_removes(state.processed, ids);
    if state.owner_refusal(caller) is None {
        if exists|i: int| 0 <= i < ids.len() && #[trigger] ids[i] is None {
            let i: int = choose|i: int| 0 <= i < ids.len() && #[trigger] ids[i] is None;
            assert(ids[i] == None::<Seq<char>>);
        }
        assert(pruned_ids(state.processed, ids).contains(id) <==> state.processed.contains(id)
            && !kept_markers(state.processed, ids).contains(id));
    }
}

/// Removed markers are reported in the order in which they are first listed: where
/// a later one is listed, an earlier one is listed before.
pub proof fn law_pruning_reports_in_order(
    processed: Set<Seq<char>>,
    ids: Seq<Option<Seq<char>>>,
    i: int,
    j: int,
    at: int,
)
    requires
        0 <= i < j < pruned_ids(processed, ids).len(),
        0 <= at < ids.len(),
        ids[at] == Some(pruned_ids(processed, ids)[j]),
    ensures
        exists|before: int|
            0 <= before < at && #[trigger] ids[before] == Some(pruned_ids(processed, ids)[i]),
    decreases ids.len(),
{
    let removed: Seq<Seq<char>> = pruned_ids(processed, ids);
    let fewer: Seq<Option<Seq<char>>> = ids.drop_last();
    let earlier: Seq<Seq<char>> = pruned_ids(processed, fewer);
    assert(removed[i] == earlier[i]);
    law_pruning_reports_what_it_removes(processed, fewer);
    assert(earlier.contains(earlier[i]));
    if j < earlier.len() && at < fewer.len() {
        assert(removed[j] == earlier[j]);
        assert(fewer[at] == ids[at]);
        law_pruning_reports_in_order(processed, fewer, i, j, at);
        let before: int = choose|before: int|
            0 <= before < at && #[trigger] fewer[before] == Some(earlier[i]);
        assert(ids[before] == Some(removed[i]));
    } else {
        if at < fewer.len() {
            assert(fewer[at] == Some(removed[j]));
            assert(fewer.contains(Some(removed[j])));
        }
        assert(fewer.contains(Some(earlier[i])));
        let before: int = choose|before: int|
            0 <= before < fewer.len() && fewer[before] == Some(earlier[i]);
        assert(ids[before] == Some(removed[i]));
    }
}

} // verus!
