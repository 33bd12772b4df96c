//! The laws hold of the functions: what each of them does is the call that it is
//! named after, made on the vault as it is stored.
use soroban_sdk::Symbol;
use vstd::prelude::*;

use crate::address::AddressKey;
use crate::calls::{lemma_after, Call};
use crate::cold_storage::{
    hot_share_bps, lists_signer, maybe_rebalance, rebalanced, split_refusal, target_hot,
    target_hot_pub, validate_split, ColdBalances, ColdConfig,
};
use crate::effects::Action;
use crate::errors::VaultError;
use crate::host::{addresses, deduct_items, symbol_texts, text_of, texts_of};
use crate::laws::announcements::steps_of;
use crate::laws::cold::{law_remainder_stays_cold, law_share_is_the_quotient};
use crate::limits::ReserveCaps;
use crate::model::VaultModel;
use crate::requests::ProcessedRequests;
use crate::timelock::{saturating_deadline, PendingPause, PendingSweep, PendingUpgrade};
use crate::vault::{marker_text, marker_texts, reports_pruned, CalloraVault};
use crate::views::{compute_sweep_preview, SweepPreview};

verus! {

/// Whether a function that found the vault in one state and left it in another has
/// done what a call does: the state, the error and the steps are those of the
/// call.
pub open spec fn does(
    before: VaultModel,
    after: VaultModel,
    call: Call,
    result: Result<Vec<Action>, VaultError>,
) -> bool {
    &&& after == before.next(call)
    &&& result is Ok <==> before.after(call) is Ok
    &&& result matches Err(error) ==> before.after(call) == Err::<(VaultModel, int), VaultError>(
        error,
    )
    &&& result matches Ok(steps) ==> steps@ == steps_of(before, call)
}

/// Each function that changes the vault does the call that it is named after, with
/// the arguments that it is given.
pub proof fn law_functions_do_their_calls(
    vault: &mut CalloraVault,
    call: Call,
    result: Result<Vec<Action>, VaultError>,
)
    requires
        match call {
            Call::Init {
                owner,
                usdc_token,
                initial_balance,
                authorized_caller,
                min_deposit,
                revenue_pool,
                max_deduct,
                settlement,
            } => call_ensures(
                CalloraVault::init,
                (
                    vault,
                    owner,
                    usdc_token,
                    initial_balance,
                    authorized_caller,
                    min_deposit,
                    revenue_pool,
                    max_deduct,
                    settlement,
                ),
                result,
            ),
            Call::Deposit { caller, amount } => call_ensures(
                CalloraVault::deposit,
                (vault, caller, amount),
                result,
            ),
            Call::SetAuthorizedCaller { caller } => call_ensures(
                CalloraVault::set_authorized_caller,
                (vault, caller),
                result,
            ),
            Call::Pause { caller } => call_ensures(CalloraVault::pause, (vault, caller), result),
            Call::Unpause { caller } => call_ensures(
                CalloraVault::unpause,
                (vault, caller),
                result,
            ),
            Call::SetMaxDeduct { caller, max_deduct } => call_ensures(
                CalloraVault::set_max_deduct,
                (vault, caller, max_deduct),
                result,
            ),
            Call::SetSettlement { caller, settlement } => call_ensures(
                CalloraVault::set_settlement,
                (vault, caller, settlement),
                result,
            ),
            Call::SetReserveCap { caller, token, cap } => call_ensures(
                CalloraVault::set_reserve_cap,
                (vault, caller, token, cap),
                result,
            ),
            Call::SetTimelockWindow { caller, window } => call_ensures(
                CalloraVault::set_timelock_window,
                (vault, caller, window),
                result,
            ),
            Call::SetAdmin { caller, new_admin } => call_ensures(
                CalloraVault::set_admin,
                (vault, caller, new_admin),
                result,
            ),
            Call::AcceptAdmin => call_ensures(CalloraVault::accept_admin, (vault,), result),
            Call::ProposePause { caller, now } => call_ensures(
                CalloraVault::propose_pause,
                (vault, caller, now),
                result,
            ),
            Call::ExecutePause { caller, now } => call_ensures(
                CalloraVault::execute_pause,
                (vault, caller, now),
                result,
            ),
            Call::CancelPause { caller } => call_ensures(
                CalloraVault::cancel_pause,
                (vault, caller),
                result,
            ),
            Call::ProposeUpgrade { caller, wasm_hash, now } => call_ensures(
                CalloraVault::propose_upgrade,
                (vault, caller, wasm_hash, now),
                result,
            ),
            Call::ExecuteUpgrade { caller, now } => call_ensures(
                CalloraVault::execute_upgrade,
                (vault, caller, now),
                result,
            ),
            Call::CancelUpgrade { caller } => call_ensures(
                CalloraVault::cancel_upgrade,
                (vault, caller),
                result,
            ),
            Call::ProposeSweep { caller, to, amount, now } => call_ensures(
                CalloraVault::propose_sweep,
                (vault, caller, to, amount, now),
                result,
            ),
            Call::ExecuteSweep { caller, now, on_ledger } => call_ensures(
                CalloraVault::execute_sweep,
                (vault, caller, now, on_ledger),
                result,
            ),
            Call::CancelSweep { caller } => call_ensures(
                CalloraVault::cancel_sweep,
                (vault, caller),
                result,
            ),
            _ => false,
        },
    ensures
        does(old(vault)@, final(vault)@, call, result),
{
    lemma_after(old(vault)@, call);
}

/// A deduction by number carries no marker; the others carry the one that they are
/// given, by its text.
pub proof fn law_deductions_do_their_calls(
    vault: &mut CalloraVault,
    caller: AddressKey,
    amount: i128,
    request_id: u64,
    symbol: Option<Symbol>,
    text: Option<String>,
    result: Result<Vec<Action>, VaultError>,
)
    ensures
        call_ensures(CalloraVault::deduct, (vault, caller, amount, request_id), result) ==> does(
            old(vault)@,
            final(vault)@,
            Call::Deduct { caller, amount, request_id, marker: None },
            result,
        ),
        call_ensures(
            CalloraVault::deduct_idempotent,
            (vault, caller, amount, request_id, symbol),
            result,
        ) ==> does(
            old(vault)@,
            final(vault)@,
            Call::Deduct { caller, amount, request_id, marker: marker_text(symbol) },
            result,
        ),
        call_ensures(
            CalloraVault::deduct_marked,
            (vault, caller, amount, request_id, text),
            result,
        ) ==> does(
            old(vault)@,
            final(vault)@,
            Call::Deduct { caller, amount, request_id, marker: text_of(text) },
            result,
        ),
{
    reveal(VaultModel::after);
}

/// A batch by number carries no markers; the others carry those that they are
/// given, by their texts.
pub proof fn law_batches_do_their_calls(
    vault: &mut CalloraVault,
    caller: AddressKey,
    items: &soroban_sdk::Vec<(i128, u64)>,
    symbols: &Vec<Option<Symbol>>,
    plain_items: &Vec<Option<(i128, u64)>>,
    texts: &Vec<Option<String>>,
    result: Result<Vec<Action>, VaultError>,
)
    ensures
        call_ensures(CalloraVault::batch_deduct, (vault, caller, items), result) ==> does(
            old(vault)@,
            final(vault)@,
            Call::BatchDeduct { caller, items: deduct_items(*items), markers: Seq::empty() },
            result,
        ),
        call_ensures(
            CalloraVault::batch_deduct_idempotent,
            (vault, caller, items, symbols),
            result,
        ) ==> does(
            old(vault)@,
            final(vault)@,
            Call::BatchDeduct {
                caller,
                items: deduct_items(*items),
                markers: marker_texts(symbols@),
            },
            result,
        ),
        call_ensures(
            CalloraVault::batch_deduct_marked,
            (vault, caller, plain_items, texts),
            result,
        ) ==> does(
            old(vault)@,
            final(vault)@,
            Call::BatchDeduct { caller, items: plain_items@, markers: texts_of(texts@) },
            result,
        ),
{
    reveal(VaultModel::after);
}

/// Pruning removes the markers whose ids it is given, by their texts, and reports
/// each of them.
pub proof fn law_prunings_do_their_calls(
    vault: &mut CalloraVault,
    caller: AddressKey,
    symbols: &soroban_sdk::Vec<Symbol>,
    texts: &Vec<Option<String>>,
    result: Result<Vec<Action>, VaultError>,
)
    ensures
        call_ensures(CalloraVault::prune_processed_requests, (vault, caller, symbols), result)
            ==> prunes_as(old(vault)@, final(vault)@, caller, symbol_texts(*symbols), result),
        call_ensures(CalloraVault::prune_markers, (vault, caller, texts), result) ==> prunes_as(
            old(vault)@,
            final(vault)@,
            caller,
            texts_of(texts@),
            result,
        ),
{
}

/// Whether a function has pruned these ids.
pub open spec fn prunes_as(
    before: VaultModel,
    after: VaultModel,
    caller: AddressKey,
    ids: Seq<Option<Seq<char>>>,
    result: Result<Vec<Action>, VaultError>,
) -> bool {
    match before.prune(caller, ids) {
        Ok((next, removed)) => {
            &&& after == next
            &&& result matches Ok(steps)
            &&& reports_pruned(steps@, caller, removed)
        },
        Err(error) => after == before && result == Err::<Vec<Action>, VaultError>(error),
    }
}

/// Whoever asks for what `init` has set up is told what is stored.
pub proof fn law_settings_are_told(
    vault: &CalloraVault,
    balance: i128,
    owner: AddressKey,
    usdc_token: AddressKey,
    settlement: AddressKey,
    admin: Result<AddressKey, VaultError>,
    limit: i128,
    pool: Option<AddressKey>,
    paused: bool,
)
    ensures
        vault.settings matches Some(now) ==> {
            &&& call_ensures(CalloraVault::balance, (vault,), balance) ==> balance == now.balance
            &&& call_ensures(CalloraVault::get_owner, (vault,), owner) ==> owner == now.owner
            &&& call_ensures(CalloraVault::get_usdc_token, (vault,), usdc_token) ==> usdc_token
                == now.usdc_token
            &&& call_ensures(CalloraVault::get_settlement, (vault,), settlement) ==> settlement
                == now.settlement
            &&& call_ensures(CalloraVault::get_admin, (vault,), admin) ==> admin == Ok::<
                AddressKey,
                VaultError,
            >(now.admin)
            &&& call_ensures(CalloraVault::get_max_deduct, (vault,), limit) ==> limit
                == now.max_deduct
            &&& call_ensures(CalloraVault::get_revenue_pool, (vault,), pool) ==> pool
                == now.revenue_pool
            &&& call_ensures(CalloraVault::is_paused, (vault,), paused) ==> paused == now.paused
        },
        vault.settings is None ==> {
            &&& call_ensures(CalloraVault::get_admin, (vault,), admin) ==> admin == Err::<
                AddressKey,
                VaultError,
            >(VaultError::NotInitialized)
            &&& call_ensures(CalloraVault::get_max_deduct, (vault,), limit) ==> limit == i128::MAX
            &&& call_ensures(CalloraVault::get_revenue_pool, (vault,), pool) ==> pool is None
            &&& call_ensures(CalloraVault::is_paused, (vault,), paused) ==> !paused
        },
{
}

/// Whoever asks for the rest is told what is stored, or what holds where nothing
/// is.
pub proof fn law_stored_values_are_told(
    vault: &CalloraVault,
    who: AddressKey,
    window: u64,
    pause: Option<PendingPause>,
    upgrade: Option<PendingUpgrade>,
    sweep: Option<PendingSweep>,
    version: Option<[u8; 32]>,
    cap: i128,
    allowed: bool,
)
    ensures
        call_ensures(CalloraVault::get_timelock_window, (vault,), window) ==> window == (
        if vault.timelock_window is Some {
            vault.timelock_window->Some_0
        } else {
            172_800
        }),
        call_ensures(CalloraVault::get_pending_pause, (vault,), pause) ==> pause
            == vault.pending_pause,
        call_ensures(CalloraVault::get_pending_upgrade, (vault,), upgrade) ==> upgrade
            == vault.pending_upgrade,
        call_ensures(CalloraVault::get_pending_sweep, (vault,), sweep) ==> sweep
            == vault.pending_sweep,
        call_ensures(CalloraVault::get_version, (vault,), version) ==> version == vault.version,
        call_ensures(CalloraVault::get_reserve_cap, (vault, who), cap) ==> cap == (
        if vault.reserve_caps@.contains_key(who) {
            vault.reserve_caps@[who]
        } else {
            i128::MAX
        }),
        call_ensures(CalloraVault::is_authorized_depositor, (vault, who), allowed) ==> (allowed
            <==> vault.depositors@.contains(who)),
{
}

/// The preview reports what the vault holds, what it tracks, and how much the one
/// exceeds the other, if it does.
pub proof fn law_preview_is_told(
    vault: &CalloraVault,
    on_ledger: i128,
    told: Result<SweepPreview, VaultError>,
)
    requires
        vault.settings matches Some(now) ==> on_ledger - now.balance <= i128::MAX,
        call_ensures(CalloraVault::dry_run_sweep_idle_balance, (vault, on_ledger), told)
            || call_ensures(compute_sweep_preview, (vault, on_ledger), told),
    ensures
        vault.settings is None ==> told == Err::<SweepPreview, VaultError>(
            VaultError::NotInitialized,
        ),
        vault.settings matches Some(now) ==> {
            &&& told matches Ok(preview)
            &&& preview.on_ledger_balance == on_ledger && preview.tracked_balance == now.balance
            &&& on_ledger >= now.balance ==> preview.idle_balance == on_ledger - now.balance
            &&& on_ledger <= now.balance ==> preview.idle_balance == 0
            &&& preview.has_idle <==> preview.idle_balance > 0
        },
{
}

/// Whether a check answers with this refusal, or lets pass where there is none.
pub open spec fn answers(told: Result<(), VaultError>, refusal: Option<VaultError>) -> bool {
    match refusal {
        Some(error) => told == Err::<(), VaultError>(error),
        None => told is Ok,
    }
}

/// The checks of amounts and roles answer as the calls do that rest on them.
pub proof fn law_checks_answer_for_the_calls(
    vault: &CalloraVault,
    who: AddressKey,
    amount: i128,
    min: i128,
    max: i128,
    now: u64,
    told: Result<(), VaultError>,
    sweep: Result<PendingSweep, VaultError>,
)
    ensures
        call_ensures(CalloraVault::require_positive_amount, (amount,), told) ==> answers(
            told,
            if amount > 0 {
                None
            } else {
                Some(VaultError::AmountNotPositive)
            },
        ),
        call_ensures(CalloraVault::require_valid_deposit_amount, (amount, min), told) ==> answers(
            told,
            if amount <= 0 {
                Some(VaultError::AmountNotPositive)
            } else if amount < min {
                Some(VaultError::DepositBelowMinimum)
            } else {
                None
            },
        ),
        call_ensures(CalloraVault::require_valid_deduct_amount, (amount, min, max), told)
            ==> answers(
            told,
            if amount <= 0 {
                Some(VaultError::AmountNotPositive)
            } else if amount < min {
                Some(VaultError::DeductBelowMinimum)
            } else if amount > max {
                Some(VaultError::ExceedsMaxDeduct)
            } else {
                None
            },
        ),
        call_ensures(CalloraVault::require_owner, (vault, who), told) ==> answers(
            told,
            if vault.settings is None {
                Some(VaultError::NotInitialized)
            } else if who != vault.settings->Some_0.owner {
                Some(VaultError::Unauthorized)
            } else {
                None
            },
        ),
        call_ensures(CalloraVault::require_admin, (vault, who), told) ==> answers(
            told,
            if vault.settings is None {
                Some(VaultError::NotInitialized)
            } else if who != vault.settings->Some_0.admin {
                Some(VaultError::Unauthorized)
            } else {
                None
            },
        ),
        call_ensures(CalloraVault::due_sweep, (vault, who, now), sweep) ==> sweep
            == vault@.due_sweep(who, now),
{
}

/// Caps are kept by token: the last one set for a token is the one that is told of
/// it, and the one before is handed back.
pub proof fn law_caps_are_kept(
    caps: &mut ReserveCaps,
    token: AddressKey,
    cap: i128,
    previous: i128,
    fresh: ReserveCaps,
    other: AddressKey,
    told: i128,
)
    ensures
        call_ensures(ReserveCaps::new, (), fresh) ==> !fresh@.contains_key(token),
        call_ensures(ReserveCaps::get, (&fresh, other), told) ==> told == (
        if fresh@.contains_key(other) {
            fresh@[other]
        } else {
            i128::MAX
        }),
        call_ensures(ReserveCaps::set, (caps, token, cap), previous) ==> {
            &&& final(caps)@.contains_key(token) && final(caps)@[token] == cap
            &&& other != token ==> (final(caps)@.contains_key(other) <==> old(
                caps,
            )@.contains_key(other))
            &&& other != token && old(caps)@.contains_key(other) ==> final(caps)@[other] == old(
                caps,
            )@[other]
            &&& previous == (if old(caps)@.contains_key(token) {
                old(caps)@[token]
            } else {
                i128::MAX
            })
        },
{
}

/// Markers are kept by their texts: one is there from when it is noted until it is
/// removed, whatever becomes of others.
pub proof fn law_markers_are_kept(
    markers: &mut ProcessedRequests,
    id: String,
    more: ProcessedRequests,
    fresh: ProcessedRequests,
    text: Seq<char>,
    told: bool,
)
    ensures
        call_ensures(ProcessedRequests::new, (), fresh) ==> !fresh@.contains(text),
        call_ensures(ProcessedRequests::contains, (&fresh, &id), told) ==> (told
            <==> fresh@.contains(id@)),
        call_ensures(ProcessedRequests::insert, (markers, id), ()) ==> (final(markers)@.contains(
            text,
        ) <==> old(markers)@.contains(text) || text == id@),
        call_ensures(ProcessedRequests::remove, (markers, &id), told) ==> (told <==> old(
            markers,
        )@.contains(id@)) && (final(markers)@.contains(text) <==> old(markers)@.contains(text)
            && text != id@),
        call_ensures(ProcessedRequests::absorb, (markers, more), ()) ==> (final(markers)@.contains(
            text,
        ) <==> old(markers)@.contains(text) || more@.contains(text)),
{
}

/// A new vault is an empty one.
pub proof fn law_new_vault_is_empty(vault: CalloraVault)
    requires
        call_ensures(CalloraVault::new, (), vault),
    ensures
        vault.settings is None,
        vault@ == VaultModel::empty(),
{
}

/// A deadline is told where the clock reaches it.
pub proof fn law_deadline_is_told(proposed_at: u64, window: u64, told: Option<u64>)
    requires
        call_ensures(saturating_deadline, (proposed_at, window), told),
    ensures
        told is Some <==> proposed_at + window <= u64::MAX,
        told matches Some(time) ==> time == proposed_at + window,
{
}

/// The figures of the hot and cold pools are told where they fit.
pub proof fn law_split_figures_are_told(
    balances: &ColdBalances,
    hot: i128,
    total: i128,
    hot_bps: u32,
    told: Result<i128, VaultError>,
)
    ensures
        call_ensures(ColdBalances::total, (balances,), told) ==> told == (if i128::MIN
            <= balances.hot + balances.cold <= i128::MAX {
            Ok::<i128, VaultError>((balances.hot + balances.cold) as i128)
        } else {
            Err(VaultError::Overflow)
        }),
        call_ensures(hot_share_bps, (hot, total), told) ==> {
            &&& total == 0 ==> told == Ok::<i128, VaultError>(0)
            &&& total != 0 && !(i128::MIN <= hot * 10_000 <= i128::MAX) ==> told == Err::<
                i128,
                VaultError,
            >(VaultError::Overflow)
            &&& total != 0 && i128::MIN <= hot * 10_000 <= i128::MAX ==> told is Ok && {
                let share = told->Ok_0;
                &&& total > 0 && hot >= 0 ==> share * total <= hot * 10_000 < share * total + total
                &&& total > 0 && hot <= 0 ==> share * total - total < hot * 10_000 <= share * total
                &&& total < 0 && hot >= 0 ==> share * total <= hot * 10_000 < share * total - total
                &&& total < 0 && hot <= 0 ==> share * total + total < hot * 10_000 <= share * total
            }
        },
        call_ensures(target_hot, (total, hot_bps), told) || call_ensures(
            target_hot_pub,
            (total, hot_bps),
            told,
        ) ==> {
            &&& !(i128::MIN <= total * hot_bps <= i128::MAX) ==> told == Err::<i128, VaultError>(
                VaultError::Overflow,
            )
            &&& i128::MIN <= total * hot_bps <= i128::MAX ==> told is Ok && told->Ok_0 * 10_000
                <= total * hot_bps < (told->Ok_0 + 1) * 10_000
        },
{
    if total != 0 {
        law_share_is_the_quotient(hot, total);
    }
    law_remainder_stays_cold(total, hot_bps);
}

/// A deposit rebalances the split as the laws of the split say.
pub proof fn law_split_is_rebalanced(
    balances: &ColdBalances,
    config: &ColdConfig,
    told: Result<ColdBalances, VaultError>,
)
    requires
        call_ensures(maybe_rebalance, (balances, config), told),
    ensures
        told == rebalanced(*balances, *config),
{
}

/// A configuration, and a list of signers, is judged as it stands.
pub proof fn law_configuration_is_judged(
    config: &ColdConfig,
    signers: &Vec<Option<AddressKey>>,
    addr: &AddressKey,
    told: Result<(), VaultError>,
    found: bool,
)
    ensures
        call_ensures(ColdConfig::validate, (config,), told) ==> told == (match split_refusal(
            config.hot_bps,
            config.rebalance_threshold_bps,
            addresses(config.cold_signers),
            config.cold_threshold,
        ) {
            Some(error) => Err::<(), VaultError>(error),
            None => Ok(()),
        }),
        call_ensures(
            validate_split,
            (config.hot_bps, config.rebalance_threshold_bps, signers, config.cold_threshold),
            told,
        ) ==> told == (match split_refusal(
            config.hot_bps,
            config.rebalance_threshold_bps,
            signers@,
            config.cold_threshold,
        ) {
            Some(error) => Err::<(), VaultError>(error),
            None => Ok(()),
        }),
        call_ensures(ColdConfig::is_cold_signer, (config, addr), found) ==> (found <==> addresses(
            config.cold_signers,
        ).contains(Some(*addr))),
        call_ensures(lists_signer, (signers, addr), found) ==> (found <==> signers@.contains(
            Some(*addr),
        )),
{
}

} // verus!
