//! What the words mean in which the contracts are written.
use soroban_sdk::Symbol;
use vstd::prelude::*;

use crate::address::AddressKey;
use crate::effects::{Action, VaultEvent};
use crate::errors::VaultError;
use crate::host::{symbol_text, text_of, texts_of};
use crate::limits::cap_of;
use crate::model::{
    deduct_amount_refusal, deposit_amount_refusal, follows, marker_at, positive_amount_refusal,
    with_marker, Outcome, VaultModel,
};
use crate::timelock::{
    deadline, is_valid_window, DEFAULT_TIMELOCK_SECONDS, MAX_TIMELOCK_SECONDS,
    MIN_TIMELOCK_SECONDS,
};
use crate::vault::{
    marker_text, marker_texts, prunes, reports, reports_pruned, CalloraVault, Settings,
};
use crate::views::preview_of;

verus! {

/// What is said of a vault is said of all that is stored of it.
pub proof fn law_vault_is_what_is_stored(vault: CalloraVault)
    ensures
        vault@.settings == vault.settings,
        vault@.pending_admin == vault.pending_admin,
        vault@.timelock_window == vault.timelock_window,
        vault@.pending_pause == vault.pending_pause,
        vault@.pending_upgrade == vault.pending_upgrade,
        vault@.pending_sweep == vault.pending_sweep,
        vault@.version == vault.version,
        vault@.reserve_caps == vault.reserve_caps@,
        vault@.processed == vault.processed@,
        forall|who: AddressKey| #[trigger]
            vault@.depositors.contains(who) <==> vault.depositors@.contains(who),
{
}

/// A new vault has nothing stored: no request has been processed, nobody is
/// allowed to deposit, and no token is capped.
pub proof fn law_new_vault_holds_nothing(id: Seq<char>, who: AddressKey)
    ensures
        VaultModel::empty().settings is None,
        VaultModel::empty().pending_admin is None,
        VaultModel::empty().timelock_window is None,
        VaultModel::empty().pending_pause is None,
        VaultModel::empty().pending_upgrade is None,
        VaultModel::empty().pending_sweep is None,
        VaultModel::empty().version is None,
        !VaultModel::empty().depositors.contains(who),
        !VaultModel::empty().reserve_caps.contains_key(who),
        !VaultModel::empty().processed.contains(id),
{
}

/// A call that ends well leaves the state and asks for the steps that it is said
/// to; one that is refused reports the error and leaves the state as it was.
pub proof fn law_contracts_leave_nothing_open(
    outcome: Outcome,
    before: VaultModel,
    after: VaultModel,
    result: Result<Vec<Action>, VaultError>,
)
    requires
        follows(outcome, before, after, result),
    ensures
        result matches Ok(steps) ==> outcome == Ok::<(VaultModel, Seq<Action>), VaultError>(
            (after, steps@),
        ),
        result matches Err(error) ==> after == before && outcome == Err::<
            (VaultModel, Seq<Action>),
            VaultError,
        >(error),
{
}

/// The same of pruning: each removed marker is reported by an event of its own
/// that names the caller, in order, and nothing else is asked for.
pub proof fn law_pruning_contract_leaves_nothing_open(
    outcome: Result<(VaultModel, Seq<Seq<char>>), VaultError>,
    before: VaultModel,
    after: VaultModel,
    caller: AddressKey,
    result: Result<Vec<Action>, VaultError>,
    i: int,
)
    requires
        prunes(outcome, before, after, caller, result),
    ensures
        result matches Ok(steps) ==> outcome is Ok && after == outcome->Ok_0.0 && steps@.len()
            == outcome->Ok_0.1.len() && (0 <= i < steps@.len() ==> (steps@[i]
            matches Action::Publish { event } && event matches VaultEvent::RequestIdPruned {
            caller: owner,
            id,
        } && owner == caller && id@ == outcome->Ok_0.1[i])),
        result matches Err(error) ==> after == before && outcome == Err::<
            (VaultModel, Seq<Seq<char>>),
            VaultError,
        >(error),
{
}

/// A check reports exactly the refusal that there is.
pub proof fn law_checks_report_the_refusal(
    result: Result<(), VaultError>,
    refusal: Option<VaultError>,
)
    requires
        reports(result, refusal),
    ensures
        result is Ok <==> refusal is None,
        result matches Err(error) ==> refusal == Some(error),
{
}

/// A marker counts by the text of its symbol, and the marker at a position
/// belongs to the item at that position.
pub proof fn law_markers_are_read_by_position(
    symbols: Seq<Option<Symbol>>,
    texts: Seq<Option<String>>,
    i: int,
)
    ensures
        marker_texts(symbols).len() == symbols.len(),
        texts_of(texts).len() == texts.len(),
        0 <= i < symbols.len() ==> marker_at(marker_texts(symbols), i) == marker_text(symbols[i]),
        0 <= i < symbols.len() ==> (marker_text(symbols[i]) is Some <==> symbols[i] is Some),
        0 <= i < symbols.len() && symbols[i] is Some ==> marker_text(symbols[i])->Some_0
            == symbol_text(symbols[i]->Some_0),
        0 <= i < texts.len() ==> marker_at(texts_of(texts), i) == text_of(texts[i]),
        0 <= i < texts.len() ==> (text_of(texts[i]) is Some <==> texts[i] is Some),
        0 <= i < texts.len() && texts[i] is Some ==> text_of(texts[i])->Some_0
            == texts[i]->Some_0@,
        i >= symbols.len() ==> marker_at(marker_texts(symbols), i) is None,
        i >= texts.len() ==> marker_at(texts_of(texts), i) is None,
{
}

/// Noting a marker adds it and no other.
pub proof fn law_marker_is_noted_alone(
    processed: Set<Seq<char>>,
    marker: Option<Seq<char>>,
    id: Seq<char>,
)
    ensures
        with_marker(processed, marker).contains(id) <==> processed.contains(id) || marker
            == Some(id),
{
}

/// An amount is refused as not positive, else as below the minimum, else as above
/// the limit, and not at all where it lies between them.
pub proof fn law_amounts_lie_within_the_limits(amount: i128, min: i128, max: i128)
    ensures
        positive_amount_refusal(amount) == (if amount > 0 {
            None::<VaultError>
        } else {
            Some(VaultError::AmountNotPositive)
        }),
        deposit_amount_refusal(amount, min) is None <==> amount > 0 && amount >= min,
        amount <= 0 ==> deposit_amount_refusal(amount, min) == Some(VaultError::AmountNotPositive),
        0 < amount < min ==> deposit_amount_refusal(amount, min) == Some(
            VaultError::DepositBelowMinimum,
        ),
        deduct_amount_refusal(amount, min, max) is None <==> amount > 0 && min <= amount <= max,
        amount <= 0 ==> deduct_amount_refusal(amount, min, max) == Some(
            VaultError::AmountNotPositive,
        ),
        0 < amount < min ==> deduct_amount_refusal(amount, min, max) == Some(
            VaultError::DeductBelowMinimum,
        ),
        amount > 0 && amount >= min && amount > max ==> deduct_amount_refusal(amount, min, max)
            == Some(VaultError::ExceedsMaxDeduct),
{
}

/// A token without a cap of its own is capped by the largest amount there is.
pub proof fn law_uncapped_token_is_unlimited(
    caps: Map<AddressKey, i128>,
    token: AddressKey,
    amount: i128,
)
    ensures
        caps.contains_key(token) ==> cap_of(caps, token) == caps[token],
        !caps.contains_key(token) ==> amount <= cap_of(caps, token),
{
}

/// A deadline is as far from the proposal as the window is long, and there is one
/// wherever the clock reaches it.
pub proof fn law_deadline_is_the_window_away(proposed_at: u64, window: u64)
    ensures
        deadline(proposed_at, window) matches Some(time) ==> time - proposed_at == window,
        deadline(proposed_at, window) is Some <==> proposed_at + window <= u64::MAX,
{
}

/// A window lies between an hour and thirty days, and is two days where none is
/// configured.
pub proof fn law_windows_are_bounded(state: VaultModel, window: u64)
    ensures
        is_valid_window(window) <==> 60 * 60 <= window <= 30 * 24 * 60 * 60,
        MIN_TIMELOCK_SECONDS == 60 * 60,
        MAX_TIMELOCK_SECONDS == 30 * 24 * 60 * 60,
        DEFAULT_TIMELOCK_SECONDS == 2 * 24 * 60 * 60,
        state.timelock_window matches Some(configured) ==> state.window() == configured,
        state.timelock_window is None ==> state.window() == 2 * 24 * 60 * 60,
{
}

/// The vault is set up where there are settings, and paused where they say so.
pub proof fn law_settings_say_what_holds(state: VaultModel, settings: Settings)
    ensures
        state.initialized() <==> state.settings is Some,
        state.settings == Some(settings) ==> state.current() == settings,
        state.settings == Some(settings) ==> (state.paused() <==> settings.paused),
        state.settings is None ==> !state.paused(),
{
}

/// Who is refused a role's calls: everyone before `init`, afterwards everyone but
/// the holder of the role; and the authorized caller while the vault is paused.
pub proof fn law_roles_are_held_by_one(state: VaultModel, who: AddressKey)
    ensures
        state.settings is None ==> state.owner_refusal(who) == Some(VaultError::NotInitialized)
            && state.owner_abort(who) == Some(VaultError::NotInitialized)
            && state.admin_refusal(who) == Some(VaultError::NotInitialized)
            && state.deduct_caller_refusal(who) == Some(VaultError::NotInitialized),
        state.settings matches Some(now) ==> {
            &&& who == now.owner ==> state.owner_refusal(who) is None && state.owner_abort(
                who,
            ) is None
            &&& who != now.owner ==> state.owner_refusal(who) == Some(VaultError::Unauthorized)
                && state.owner_abort(who) == Some(VaultError::NotOwner)
            &&& who == now.admin ==> state.admin_refusal(who) is None
            &&& who != now.admin ==> state.admin_refusal(who) == Some(VaultError::Unauthorized)
            &&& who == now.authorized_caller && !now.paused ==> state.deduct_caller_refusal(
                who,
            ) is None
            &&& who == now.authorized_caller && now.paused ==> state.deduct_caller_refusal(who)
                == Some(VaultError::Paused)
            &&& who != now.authorized_caller ==> state.deduct_caller_refusal(who) == Some(
                VaultError::NotAuthorizedCaller,
            )
        },
{
}

/// The idle balance is what the vault holds beyond what it tracks: together with
/// the tracked balance it makes up the holdings, and there is none where the
/// holdings do not exceed the tracked balance.
pub proof fn law_preview_reports_the_surplus(on_ledger: i128, recorded: i128)
    requires
        on_ledger - recorded <= i128::MAX,
    ensures
        preview_of(on_ledger, recorded).on_ledger_balance == on_ledger,
        preview_of(on_ledger, recorded).tracked_balance == recorded,
        on_ledger >= recorded ==> preview_of(on_ledger, recorded).idle_balance + recorded
            == on_ledger,
        on_ledger <= recorded ==> preview_of(on_ledger, recorded).idle_balance == 0,
        preview_of(on_ledger, recorded).has_idle <==> on_ledger > recorded,
{
}

} // verus!
