//! Laws of request markers.
use vstd::prelude::*;

use crate::address::AddressKey;
use crate::calls::Call;
use crate::effects::Action;
use crate::errors::VaultError;
use crate::laws::accounting::{amounts, law_batch_comes_to_its_sum};
use crate::laws::frame::law_calls_change_only_their_own;
use crate::model::{
    batch_sum, deduct_amount_refusal, kept_markers, marker_at, pruned_ids, with_marker, VaultModel,
};
use crate::vault::Settings;

verus! {

/// An accepted deduction leaves its marker, and nothing but its marker.
pub proof fn law_deduction_leaves_its_marker(
    state: VaultModel,
    caller: AddressKey,
    amount: i128,
    request_id: u64,
    marker: Option<Seq<char>>,
)
    ensures
        state.deduct(caller, amount, request_id, marker) matches Ok((next, _)) ==> next.processed
            == with_marker(state.processed, marker),
{
}

/// A marker that has been processed refuses the deduction: whoever may deduct
/// and asks for an acceptable amount is told that the request is a duplicate.
pub proof fn law_processed_marker_refuses(
    state: VaultModel,
    caller: AddressKey,
    amount: i128,
    request_id: u64,
    id: Seq<char>,
)
    requires
        state.processed.contains(id),
    ensures
        state.deduct(caller, amount, request_id, Some(id)) is Err,
        state.deduct_caller_refusal(caller) is None && deduct_amount_refusal(
            amount,
            state.current().min_deposit,
            state.current().max_deduct,
        ) is None ==> state.deduct(caller, amount, request_id, Some(id)) == Err::<
            (VaultModel, Seq<Action>),
            VaultError,
        >(VaultError::DuplicateRequestId),
{
}

/// A request without a marker is never a duplicate: repeated, it is judged by
/// the balance alone.
pub proof fn law_unmarked_requests_repeat(
    state: VaultModel,
    caller: AddressKey,
    amount: i128,
    request_id: u64,
)
    ensures
        state.deduct(caller, amount, request_id, None) != Err::<
            (VaultModel, Seq<Action>),
            VaultError,
        >(VaultError::DuplicateRequestId),
        state.deduct(caller, amount, request_id, None) matches Ok((next, _)) ==> next.deduct(
            caller,
            amount,
            request_id,
            None,
        ) is Ok || next.current().balance < amount,
{
}

/// What a batch comes to keeps the markers that were there before and adds
/// those of its items, which are new and all different.
proof fn lemma_batch_markers(
    items: Seq<Option<(i128, u64)>>,
    markers: Seq<Option<Seq<char>>>,
    min_amount: i128,
    max_deduct: i128,
    processed: Set<Seq<char>>,
)
    requires
        batch_sum(items, markers, min_amount, max_deduct, processed) is Ok,
    ensures
        ({
            let seen = batch_sum(items, markers, min_amount, max_deduct, processed)->Ok_0.1;
            &&& processed.subset_of(seen)
            &&& forall|i: int|
                #![trigger marker_at(markers, i)]
                0 <= i < items.len() ==> (marker_at(markers, i) matches Some(id)
                    ==> !processed.contains(id) && seen.contains(id))
            &&& forall|i: int, j: int|
                #![trigger marker_at(markers, i), marker_at(markers, j)]
                0 <= i < j < items.len() && marker_at(markers, i) is Some ==> marker_at(markers, i)
                    != marker_at(markers, j)
        }),
    decreases items.len(),
{
    if items.len() > 0 {
        lemma_batch_markers(items.drop_last(), markers, min_amount, max_deduct, processed);
    }
}

/// An accepted batch leaves the markers of all its items; none of them was there
/// before, and no two of them are the same.
pub proof fn law_batch_leaves_its_markers(
    state: VaultModel,
    caller: AddressKey,
    items: Seq<Option<(i128, u64)>>,
    markers: Seq<Option<Seq<char>>>,
)
    ensures
        state.batch_deduct(caller, items, markers) matches Ok((next, _)) ==> {
            &&& state.processed.subset_of(next.processed)
            &&& forall|i: int|
                #![trigger marker_at(markers, i)]
                0 <= i < items.len() ==> (marker_at(markers, i) matches Some(id)
                    ==> !state.processed.contains(id) && next.processed.contains(id))
            &&& forall|i: int, j: int|
                #![trigger marker_at(markers, i), marker_at(markers, j)]
                0 <= i < j < items.len() && marker_at(markers, i) is Some ==> marker_at(markers, i)
                    != marker_at(markers, j)
        },
{
    if state.batch_deduct(caller, items, markers) is Ok {
        let now: Settings = state.current();
        lemma_batch_markers(items, markers, now.min_deposit, now.max_deduct, state.processed);
    }
}

/// A batch without markers leaves none.
pub proof fn law_unmarked_batch_leaves_no_marker(
    state: VaultModel,
    caller: AddressKey,
    items: Seq<Option<(i128, u64)>>,
)
    ensures
        state.batch_deduct(caller, items, Seq::empty()) matches Ok((next, _)) ==> next.processed
            == state.processed,
        state.batch_deduct(caller, items, Seq::empty()) != Err::<
            (VaultModel, Seq<Action>),
            VaultError,
        >(VaultError::DuplicateRequestId),
{
    let now: Settings = state.current();
    lemma_unmarked(items, now.min_deposit, now.max_deduct, state.processed);
}

/// Without markers nothing is a duplicate and no marker is added.
proof fn lemma_unmarked(
    items: Seq<Option<(i128, u64)>>,
    min_amount: i128,
    max_deduct: i128,
    processed: Set<Seq<char>>,
)
    ensures
        match batch_sum(items, Seq::empty(), min_amount, max_deduct, processed) {
            Ok((_, seen)) => seen == processed,
            Err(error) => error != VaultError::DuplicateRequestId,
        },
    decreases items.len(),
{
    if items.len() > 0 {
        lemma_unmarked(items.drop_last(), min_amount, max_deduct, processed);
    }
}

/// Only pruning takes markers away.
pub proof fn law_markers_stay_until_pruned(state: VaultModel, call: Call)
    requires
        !(call is Prune),
    ensures
        state.processed.subset_of(state.next(call).processed),
{
    if state.after(call) is Ok {
        match call {
            Call::BatchDeduct { caller, items, markers } => {
                reveal(VaultModel::after);
                law_batch_leaves_its_markers(state, caller, items, markers);
            },
            Call::Deduct { .. } => {
                reveal(VaultModel::after);
            },
            Call::Init { .. } => {
                reveal(VaultModel::after);
            },
            _ => {
                law_calls_change_only_their_own(state, call);
            },
        }
    }
}

/// Whether a call is a deduction, or a batch with an item, that carries the
/// marker `id`.
pub open spec fn carries(call: Call, id: Seq<char>) -> bool {
    match call {
        Call::Deduct { marker, .. } => marker == Some(id),
        Call::BatchDeduct { items, markers, .. } => exists|i: int|
            0 <= i < items.len() && #[trigger] marker_at(markers, i) == Some(id),
        _ => false,
    }
}

/// Whether a call prunes the marker `id`.
pub open spec fn prunes_marker(call: Call, id: Seq<char>) -> bool {
    call matches Call::Prune { ids, .. } && ids.contains(Some(id))
}

/// Whether every item of a batch could be deducted for its amount, and the
/// amounts have a sum that fits.
pub open spec fn items_in_order(state: VaultModel, items: Seq<Option<(i128, u64)>>) -> bool {
    &&& forall|i: int|
        0 <= i < items.len() ==> #[trigger] items[i] is Some && deduct_amount_refusal(
            items[i]->Some_0.0,
            state.current().min_deposit,
            state.current().max_deduct,
        ) is None
    &&& amounts(items) <= i128::MAX
}

/// Whether a call is a deduction, or a batch, by someone who may deduct, and
/// nothing is wrong with its amounts.
pub open spec fn is_in_order(state: VaultModel, call: Call) -> bool {
    match call {
        Call::Deduct { caller, amount, .. } => state.deduct_caller_refusal(caller) is None
            && deduct_amount_refusal(
            amount,
            state.current().min_deposit,
            state.current().max_deduct,
        ) is None,
        Call::BatchDeduct { caller, items, .. } => state.deduct_caller_refusal(caller) is None
            && items_in_order(state, items),
        _ => false,
    }
}

/// Whether an item of a batch carries a marker that has been processed, or that
/// an earlier item carries too.
pub open spec fn has_duplicate_marker(
    processed: Set<Seq<char>>,
    items: Seq<Option<(i128, u64)>>,
    markers: Seq<Option<Seq<char>>>,
) -> bool {
    exists|i: int|
        0 <= i < items.len() && (#[trigger] marker_at(markers, i) matches Some(id) && (
        processed.contains(id) || exists|j: int|
            0 <= j < i && #[trigger] marker_at(markers, j) == Some(id)))
}

/// The only thing that a batch whose amounts are in order can fail on before its
/// sum is held against the balance is a marker.
proof fn lemma_only_markers_refuse(
    items: Seq<Option<(i128, u64)>>,
    markers: Seq<Option<Seq<char>>>,
    min_amount: i128,
    max_deduct: i128,
    processed: Set<Seq<char>>,
)
    requires
        forall|i: int|
            0 <= i < items.len() ==> #[trigger] items[i] is Some && deduct_amount_refusal(
                items[i]->Some_0.0,
                min_amount,
                max_deduct,
            ) is None,
        amounts(items) <= i128::MAX,
    ensures
        match batch_sum(items, markers, min_amount, max_deduct, processed) {
            Ok((sum, _)) => sum == amounts(items),
            Err(error) => error == VaultError::DuplicateRequestId,
        },
    decreases items.len(),
{
    if items.len() > 0 {
        let shorter: Seq<Option<(i128, u64)>> = items.drop_last();
        assert(items[items.len() - 1] is Some);
        assert forall|i: int| 0 <= i < shorter.len() implies #[trigger] shorter[i] is Some
            && deduct_amount_refusal(shorter[i]->Some_0.0, min_amount, max_deduct) is None by {
            assert(shorter[i] == items[i]);
        }
        lemma_only_markers_refuse(shorter, markers, min_amount, max_deduct, processed);
    }
}

/// What a batch comes to holds the markers that were there before and those of its
/// items, and no others.
proof fn lemma_batch_notes(
    items: Seq<Option<(i128, u64)>>,
    markers: Seq<Option<Seq<char>>>,
    min_amount: i128,
    max_deduct: i128,
    processed: Set<Seq<char>>,
    id: Seq<char>,
)
    requires
        batch_sum(items, markers, min_amount, max_deduct, processed) is Ok,
    ensures
        batch_sum(items, markers, min_amount, max_deduct, processed)->Ok_0.1.contains(id)
            <==> processed.contains(id) || exists|j: int|
            0 <= j < items.len() && #[trigger] marker_at(markers, j) == Some(id),
    decreases items.len(),
{
    if items.len() > 0 {
        lemma_batch_notes(items.drop_last(), markers, min_amount, max_deduct, processed, id);
        assert(marker_at(markers, items.len() - 1) == marker_at(markers, items.len() - 1));
        if exists|j: int|
            0 <= j < items.len() && #[trigger] marker_at(markers, j) == Some(id) {
            let j: int = choose|j: int|
                0 <= j < items.len() && #[trigger] marker_at(markers, j) == Some(id);
            if j < items.len() - 1 {
                assert(0 <= j < items.drop_last().len());
            }
        }
    }
}

/// A batch comes to something exactly when its amounts are in order and its
/// markers are new and different: to the sum of its amounts, and to the markers
/// that were there before with those of its items.
pub(crate) proof fn lemma_batch_is_judged(
    state: VaultModel,
    items: Seq<Option<(i128, u64)>>,
    markers: Seq<Option<Seq<char>>>,
)
    ensures
        ({
            let now = state.current();
            let sum = batch_sum(items, markers, now.min_deposit, now.max_deduct, state.processed);
            &&& sum is Ok <==> items_in_order(state, items) && !has_duplicate_marker(
                state.processed,
                items,
                markers,
            )
            &&& sum is Ok ==> sum->Ok_0.0 == amounts(items)
            &&& sum is Ok ==> forall|id: Seq<char>| #[trigger]
                sum->Ok_0.1.contains(id) <==> state.processed.contains(id) || exists|j: int|
                    0 <= j < items.len() && #[trigger] marker_at(markers, j) == Some(id)
        }),
    decreases items.len(),
{
    let now: Settings = state.current();
    let sum = batch_sum(items, markers, now.min_deposit, now.max_deduct, state.processed);
    if sum is Ok {
        law_batch_comes_to_its_sum(
            items,
            markers,
            now.min_deposit,
            now.max_deduct,
            state.processed,
        );
        lemma_batch_markers(items, markers, now.min_deposit, now.max_deduct, state.processed);
        assert forall|id: Seq<char>| #[trigger]
            sum->Ok_0.1.contains(id) <==> state.processed.contains(id) || exists|j: int|
                0 <= j < items.len() && #[trigger] marker_at(markers, j) == Some(id) by {
            lemma_batch_notes(
                items,
                markers,
                now.min_deposit,
                now.max_deduct,
                state.processed,
                id,
            );
        }
    } else if items_in_order(state, items) && !has_duplicate_marker(
        state.processed,
        items,
        markers,
    ) {
        let shorter: Seq<Option<(i128, u64)>> = items.drop_last();
        let last: int = items.len() - 1;
        assert(items[last] is Some);
        assert(items_in_order(state, shorter)) by {
            assert forall|i: int| 0 <= i < shorter.len() implies #[trigger] shorter[i] is Some
                && deduct_amount_refusal(
                shorter[i]->Some_0.0,
                now.min_deposit,
                now.max_deduct,
            ) is None by {
                assert(shorter[i] == items[i]);
            }
        }
        assert(!has_duplicate_marker(state.processed, shorter, markers));
        lemma_batch_is_judged(state, shorter, markers);
        assert(marker_at(markers, last) == marker_at(markers, last));
        assert(false);
    }
}

/// A batch with a marker that has been processed, or that it holds twice, is
/// refused: whoever may deduct and whose amounts are in order is told that a
/// request is a duplicate.
pub proof fn law_duplicate_marker_refuses_the_batch(
    state: VaultModel,
    caller: AddressKey,
    items: Seq<Option<(i128, u64)>>,
    markers: Seq<Option<Seq<char>>>,
)
    requires
        has_duplicate_marker(state.processed, items, markers),
    ensures
        state.batch_deduct(caller, items, markers) is Err,
        state.deduct_caller_refusal(caller) is None && items_in_order(state, items)
            ==> state.batch_deduct(caller, items, markers) == Err::<
            (VaultModel, Seq<Action>),
            VaultError,
        >(VaultError::DuplicateRequestId),
{
    law_batch_leaves_its_markers(state, caller, items, markers);
    if state.deduct_caller_refusal(caller) is None && items_in_order(state, items) {
        let now: Settings = state.current();
        lemma_only_markers_refuse(
            items,
            markers,
            now.min_deposit,
            now.max_deduct,
            state.processed,
        );
        if batch_sum(items, markers, now.min_deposit, now.max_deduct, state.processed) is Ok {
            lemma_batch_markers(items, markers, now.min_deposit, now.max_deduct, state.processed);
        }
    }
}

/// Once a request that carries a marker has been accepted, alone or in a batch,
/// no other one with the same marker is, whatever is called in between, as long
/// as the marker is not pruned. Where nothing else is wrong with it, the answer
/// is that it is a duplicate.
pub proof fn law_marked_request_is_processed_once(
    state: VaultModel,
    first: Call,
    calls: Seq<Call>,
    later: Call,
    id: Seq<char>,
)
    requires
        carries(first, id),
        state.after(first) is Ok,
        forall|i: int| 0 <= i < calls.len() ==> !prunes_marker(#[trigger] calls[i], id),
        carries(later, id),
    ensures
        state.next(first).run(calls).after(later) is Err,
        is_in_order(state.next(first).run(calls), later) ==> state.next(first).run(calls).after(
            later,
        ) == Err::<(VaultModel, int), VaultError>(VaultError::DuplicateRequestId),
{
    lemma_accepted_leaves_marker(state, first, id);
    lemma_marker_stays(state.next(first), id, calls);
    lemma_marker_refuses(state.next(first).run(calls), later, id);
}

/// An accepted request leaves the markers that it carries.
proof fn lemma_accepted_leaves_marker(state: VaultModel, call: Call, id: Seq<char>)
    requires
        carries(call, id),
        state.after(call) is Ok,
    ensures
        state.next(call).processed.contains(id),
{
    reveal(VaultModel::after);
    if let Call::BatchDeduct { caller, items, markers } = call {
        law_batch_leaves_its_markers(state, caller, items, markers);
    }
}

/// A request that carries a processed marker is refused as a duplicate.
proof fn lemma_marker_refuses(state: VaultModel, call: Call, id: Seq<char>)
    requires
        carries(call, id),
        state.processed.contains(id),
    ensures
        state.after(call) is Err,
        is_in_order(state, call) ==> state.after(call) == Err::<(VaultModel, int), VaultError>(
            VaultError::DuplicateRequestId,
        ),
{
    reveal(VaultModel::after);
    if let Call::BatchDeduct { caller, items, markers } = call {
        law_duplicate_marker_refuses_the_batch(state, caller, items, markers);
    }
}

/// A marker outlasts calls that do not prune it.
proof fn lemma_marker_stays(state: VaultModel, id: Seq<char>, calls: Seq<Call>)
    requires
        state.processed.contains(id),
        forall|i: int| 0 <= i < calls.len() ==> !prunes_marker(#[trigger] calls[i], id),
    ensures
        state.run(calls).processed.contains(id),
    decreases calls.len(),
{
    if calls.len() > 0 {
        let fewer: Seq<Call> = calls.drop_last();
        let last: Call = calls.last();
        assert forall|i: int| 0 <= i < fewer.len() implies !prunes_marker(
            #[trigger] fewer[i],
            id,
        ) by {
            assert(fewer[i] == calls[i]);
        }
        lemma_marker_stays(state, id, fewer);
        assert(!prunes_marker(calls[calls.len() - 1], id));
        if last is Prune {
            reveal(VaultModel::after);
        } else {
            law_markers_stay_until_pruned(state.run(fewer), last);
        }
    }
}

/// Pruning removes exactly the listed markers, and an id whose marker has been
/// pruned can be used again.
pub proof fn law_pruned_ids_can_be_used_again(
    state: VaultModel,
    owner: AddressKey,
    ids: Seq<Option<Seq<char>>>,
    id: Seq<char>,
    caller: AddressKey,
    amount: i128,
    request_id: u64,
)
    requires
        state.prune(owner, ids) is Ok,
    ensures
        state.prune(owner, ids)->Ok_0.0.processed.contains(id) == (state.processed.contains(id)
            && !ids.contains(Some(id))),
        ids.contains(Some(id)) ==> state.prune(owner, ids)->Ok_0.0.deduct(
            caller,
            amount,
            request_id,
            Some(id),
        ) != Err::<(VaultModel, Seq<Action>), VaultError>(VaultError::DuplicateRequestId),
{
}

/// What pruning reports is what it removes: each listed id that had a marker,
/// once.
pub proof fn law_pruning_reports_what_it_removes(
    processed: Set<Seq<char>>,
    ids: Seq<Option<Seq<char>>>,
)
    ensures
        pruned_ids(processed, ids).no_duplicates(),
        forall|id: Seq<char>|
            #[trigger] pruned_ids(processed, ids).contains(id) <==> processed.contains(id)
                && !kept_markers(processed, ids).contains(id),
    decreases ids.len(),
{
    let removed: Seq<Seq<char>> = pruned_ids(processed, ids);
    if ids.len() > 0 {
        let fewer: Seq<Option<Seq<char>>> = ids.drop_last();
        let earlier: Seq<Seq<char>> = pruned_ids(processed, fewer);
        law_pruning_reports_what_it_removes(processed, fewer);
        assert(ids =~= fewer.push(ids.last()));
        assert forall|id: Seq<char>| ids.contains(Some(id)) == (fewer.contains(Some(id))
            || ids.last() == Some(id)) by {
            if fewer.contains(Some(id)) {
                let i: int = choose|i: int| 0 <= i < fewer.len() && fewer[i] == Some(id);
                assert(ids[i] == Some(id));
            }
            if ids.contains(Some(id)) {
                let i: int = choose|i: int| 0 <= i < ids.len() && ids[i] == Some(id);
                if i < fewer.len() {
                    assert(fewer[i] == Some(id));
                }
            }
        }
        assert forall|id: Seq<char>| #[trigger]
            removed.contains(id) <==> processed.contains(id) && !kept_markers(
                processed,
                ids,
            ).contains(id) by {
            assert(earlier.contains(id) <==> processed.contains(id) && !kept_markers(
                processed,
                fewer,
            ).contains(id));
            if removed.len() > earlier.len() {
                let added: Seq<char> = ids.last()->Some_0;
                assert(removed == earlier.push(added));
                assert(removed[earlier.len() as int] == added);
                if earlier.contains(id) {
                    let i: int = choose|i: int| 0 <= i < earlier.len() && earlier[i] == id;
                    assert(removed[i] == id);
                }
                if removed.contains(id) && id != added {
                    let i: int = choose|i: int| 0 <= i < removed.len() && removed[i] == id;
                    assert(earlier[i] == id);
                }
            }
        }
        if removed.len() > earlier.len() {
            assert(!earlier.contains(ids.last()->Some_0));
        }
    }
}

/// Pruning the same ids again changes nothing and reports nothing.
pub proof fn law_pruning_twice_is_pruning_once(
    state: VaultModel,
    owner: AddressKey,
    ids: Seq<Option<Seq<char>>>,
)
    ensures
        state.prune(owner, ids) matches Ok((next, _)) ==> next.prune(owner, ids) == Ok::<
            (VaultModel, Seq<Seq<char>>),
            VaultError,
        >((next, Seq::empty())),
{
    if let Ok((next, _)) = state.prune(owner, ids) {
        assert(kept_markers(next.processed, ids) =~= next.processed);
        let removed: Seq<Seq<char>> = pruned_ids(next.processed, ids);
        law_pruning_reports_what_it_removes(next.processed, ids);
        if removed.len() > 0 {
            assert(removed.contains(removed[0]));
        }
        assert(removed =~= Seq::empty());
    }
}

} // verus!
