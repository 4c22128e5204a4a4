//! What each command does to the history, said of its items alone.
//!
//! Nothing here goes through the rules that the reducer itself is written with: ages are in
//! nanoseconds, a day has 86,400,000,000,000 of them, and bounds are numbers.
use crate::crypto::sha256_digest;
use crate::std_text::lowercase;
use crate::workspace::laws::{
    kept_indices, lemma_filter_same, lemma_first_index_bounds,
    retention_selects_pinned_and_first_fresh_items, visible_items_match_with_pins_first,
};
use crate::workspace::model::{
    apply_outcome, content_hash, first_index, has_hash, has_id, initial_workspace,
    matches_query, other_than, pinned, retained, shown, shown_with_pin, valid_fingerprint,
    valid_parts, visible, with_pin, ActionView, ItemView, WorkspaceView,
};
use crate::text::text_before;
use crate::workspace::{
    ascending, item_refs, items_view, workspace_error_text, ClipboardItem, RetentionPolicy,
    WorkspaceAction, WorkspaceError, DESKTOP_FEATURE_IDS,
};
use vstd::prelude::*;
use vstd::utf8::*;

verus! {

broadcast use vstd::seq_lib::group_filter_ensures;

// ---- retention ----

/// The items of `after` are those at the ascending indices `at` of `before`: every pinned item,
/// and each unpinned one that is no older than the policy's days and that fewer such unpinned
/// items stand before than the policy allows.
pub open spec fn keeps_at(
    before: Seq<ItemView>,
    after: Seq<ItemView>,
    at: Seq<int>,
    policy: RetentionPolicy,
    now: i128,
) -> bool {
    &&& after.len() == at.len()
    &&& forall|k: int|
        0 <= k < at.len() ==> 0 <= #[trigger] at[k] < before.len() && after[k] == before[at[k]]
    &&& forall|j: int, k: int| 0 <= j < k < at.len() ==> #[trigger] at[j] < #[trigger] at[k]
    &&& forall|i: int|
        0 <= i < before.len() ==> (#[trigger] at.contains(i) <==> (before[i].is_pinned || (now
            - before[i].captured_at <= policy.max_age_days * 86_400_000_000_000 && before.take(
            i,
        ).filter(
            |item: ItemView|
                !item.is_pinned && now - item.captured_at <= policy.max_age_days
                    * 86_400_000_000_000,
        ).len() < policy.max_items)))
}

/// Retention with that policy at that moment makes `after` of `before`.
pub open spec fn kept_by_age_and_count(
    before: Seq<ItemView>,
    after: Seq<ItemView>,
    policy: RetentionPolicy,
    now: i128,
) -> bool {
    exists|at: Seq<int>| #[trigger] keeps_at(before, after, at, policy, now)
}

/// Retention keeps every pinned item, and of the unpinned ones those that are at most as many days
/// old as the policy says, the first of them up to the policy's number, all in their order.
pub proof fn retention_goes_by_age_and_count(
    items: Seq<ItemView>,
    policy: RetentionPolicy,
    now: i128,
)
    ensures
        kept_by_age_and_count(items, retained(items, policy, now), policy, now),
{
    let at = kept_indices(items, policy, now);
    let after = retained(items, policy, now);
    retention_selects_pinned_and_first_fresh_items(items, policy, now);
    assert forall|i: int| 0 <= i < items.len() implies (#[trigger] at.contains(i) <==> (
    items[i].is_pinned || (now - items[i].captured_at <= policy.max_age_days * 86_400_000_000_000
        && items.take(i).filter(
        |item: ItemView|
            !item.is_pinned && now - item.captured_at <= policy.max_age_days * 86_400_000_000_000,
    ).len() < policy.max_items))) by {
        lemma_filter_same(
            items.take(i),
            crate::workspace::laws::fresh_unpinned(policy, now),
            |item: ItemView|
                !item.is_pinned && now - item.captured_at <= policy.max_age_days
                    * 86_400_000_000_000,
        );
    }
    assert(keeps_at(items, after, at, policy, now));
}

/// What is kept holds no unpinned item over the age limit, and no more unpinned items than
/// allowed; where there are no more unpinned items than allowed, none within the age limit is
/// dropped.
proof fn lemma_kept(
    before: Seq<ItemView>,
    after: Seq<ItemView>,
    policy: RetentionPolicy,
    now: i128,
)
    requires
        kept_by_age_and_count(before, after, policy, now),
    ensures
        forall|k: int|
            0 <= k < after.len() ==> (#[trigger] after[k]).is_pinned || now - after[k].captured_at
                <= policy.max_age_days * 86_400_000_000_000,
        forall|item: ItemView| #[trigger] after.contains(item) ==> before.contains(item),
        forall|item: ItemView| #[trigger]
            before.contains(item) && item.is_pinned ==> after.contains(item),
        before.filter(|item: ItemView| !item.is_pinned).len() <= policy.max_items ==> forall|
            item: ItemView,
        | #[trigger]
            before.contains(item) && now - item.captured_at <= policy.max_age_days
                * 86_400_000_000_000 ==> after.contains(item),
{
    let at = choose|at: Seq<int>| #[trigger] keeps_at(before, after, at, policy, now);
    assert forall|k: int| 0 <= k < after.len() implies (#[trigger] after[k]).is_pinned || now
        - after[k].captured_at <= policy.max_age_days * 86_400_000_000_000 by {
        assert(at.contains(at[k]));
    }
    assert forall|item: ItemView| #[trigger] after.contains(item) implies before.contains(item) by {
        let k = choose|k: int| 0 <= k < after.len() && after[k] == item;
        assert(before[at[k]] == item);
    }
    assert forall|item: ItemView| #[trigger]
        before.contains(item) && item.is_pinned implies after.contains(item) by {
        let i = choose|i: int| 0 <= i < before.len() && before[i] == item;
        assert(at.contains(i));
        let k = choose|k: int| 0 <= k < at.len() && at[k] == i;
        assert(after[k] == item);
    }
    if before.filter(|item: ItemView| !item.is_pinned).len() <= policy.max_items {
        assert forall|item: ItemView| #[trigger]
            before.contains(item) && now - item.captured_at <= policy.max_age_days
                * 86_400_000_000_000 implies after.contains(item) by {
            let i = choose|i: int| 0 <= i < before.len() && before[i] == item;
            if !item.is_pinned {
                lemma_earlier_are_fewer(
                    before,
                    i,
                    |item: ItemView|
                        !item.is_pinned && now - item.captured_at <= policy.max_age_days
                            * 86_400_000_000_000,
                );
            }
            assert(at.contains(i));
            let k = choose|k: int| 0 <= k < at.len() && at[k] == i;
            assert(after[k] == item);
        }
    }
}

/// Before an unpinned item there are fewer unpinned items than there are at all.
proof fn lemma_earlier_are_fewer(
    items: Seq<ItemView>,
    i: int,
    fresh: spec_fn(ItemView) -> bool,
)
    requires
        0 <= i < items.len(),
        !items[i].is_pinned,
        forall|item: ItemView| #[trigger] fresh(item) ==> !item.is_pinned,
    ensures
        items.take(i).filter(fresh).len() < items.filter(|item: ItemView| !item.is_pinned).len(),
    decreases items.len(),
{
    reveal(Seq::filter);
    let open = |item: ItemView| !item.is_pinned;
    let before = items.drop_last();
    if i < items.len() - 1 {
        lemma_earlier_are_fewer(before, i, fresh);
        assert(before.take(i) =~= items.take(i));
    } else {
        assert(items.take(i) =~= before);
        lemma_fewer(before, fresh, open);
        assert(open(items.last()));
    }
}

proof fn lemma_fewer(
    items: Seq<ItemView>,
    first: spec_fn(ItemView) -> bool,
    second: spec_fn(ItemView) -> bool,
)
    requires
        forall|item: ItemView| #[trigger] first(item) ==> second(item),
    ensures
        items.filter(first).len() <= items.filter(second).len(),
    decreases items.len(),
{
    reveal(Seq::filter);
    if items.len() > 0 {
        lemma_fewer(items.drop_last(), first, second);
    }
}

/// The commands after which retention is applied leave no unpinned item over the age limit.
/// Where there are no more unpinned items than the policy allows, counting one that is unpinned,
/// neither a change of the policy nor unpinning drops an item within the age limit.
pub proof fn no_item_outlives_the_age_limit(
    w: WorkspaceView,
    command_id: u128,
    expected_revision: u64,
    action: ActionView,
    now: i128,
    after: WorkspaceView,
)
    requires
        apply_outcome(w, command_id, expected_revision, action, now) == Ok::<_, WorkspaceError>(
            after,
        ),
        action is SetRetention || action is UnpinItem || action is IngestText,
    ensures
        forall|k: int|
            0 <= k < after.items.len() ==> (#[trigger] after.items[k]).is_pinned || now
                - after.items[k].captured_at <= after.retention.max_age_days * 86_400_000_000_000,
        !(action is IngestText) && w.items.filter(|item: ItemView| !item.is_pinned).len() + (
        if action is UnpinItem {
            1int
        } else {
            0int
        }) <= after.retention.max_items ==> forall|i: int|
            0 <= i < w.items.len() && now - (#[trigger] w.items[i]).captured_at
                <= after.retention.max_age_days * 86_400_000_000_000 ==> exists|k: int|
                0 <= k < after.items.len() && (#[trigger] after.items[k]).item_id
                    == w.items[i].item_id && after.items[k].text == w.items[i].text,
{
    let policy = after.retention;
    match action {
        ActionView::SetRetention(_) => {
            retention_goes_by_age_and_count(w.items, policy, now);
            lemma_kept(w.items, after.items, policy, now);
            assert forall|i: int|
                w.items.filter(|item: ItemView| !item.is_pinned).len() <= policy.max_items && 0 <= i
                    < w.items.len() && now - (#[trigger] w.items[i]).captured_at
                    <= policy.max_age_days * 86_400_000_000_000 implies exists|k: int|
                0 <= k < after.items.len() && (#[trigger] after.items[k]).item_id
                    == w.items[i].item_id && after.items[k].text == w.items[i].text by {
                assert(w.items.contains(w.items[i]));
                assert(after.items.contains(w.items[i]));
                let k = choose|k: int|
                    0 <= k < after.items.len() && after.items[k] == w.items[i];
                assert(after.items[k].item_id == w.items[i].item_id);
            }
        },
        ActionView::UnpinItem(item_id) => {
            lemma_first_index_bounds(w.items, has_id(item_id));
            let j = first_index(w.items, has_id(item_id));
            let moved = with_pin(w.items, item_id, false).unwrap();
            retention_goes_by_age_and_count(moved, policy, now);
            lemma_kept(moved, after.items, policy, now);
            lemma_one_more_unpinned(w.items, j);
            assert forall|i: int|
                w.items.filter(|item: ItemView| !item.is_pinned).len() < policy.max_items && 0 <= i
                    < w.items.len() && now - (#[trigger] w.items[i]).captured_at
                    <= policy.max_age_days * 86_400_000_000_000 implies exists|k: int|
                0 <= k < after.items.len() && (#[trigger] after.items[k]).item_id
                    == w.items[i].item_id && after.items[k].text == w.items[i].text by {
                assert(moved.contains(moved[i]));
                assert(after.items.contains(moved[i]));
                let k = choose|k: int| 0 <= k < after.items.len() && after.items[k] == moved[i];
                assert(after.items[k].item_id == w.items[i].item_id);
            }
        },
        ActionView::IngestText(item) => {
            let placed = crate::workspace::model::with_item(w.items, w.retention, item);
            retention_goes_by_age_and_count(placed, policy, now);
            lemma_kept(placed, after.items, policy, now);
        },
        _ => {},
    }
}

/// Taking one item's pin off makes at most one more unpinned item.
proof fn lemma_one_more_unpinned(items: Seq<ItemView>, j: int)
    requires
        0 <= j < items.len(),
    ensures
        items.update(j, ItemView { is_pinned: false, ..items[j] }).filter(
            |item: ItemView| !item.is_pinned,
        ).len() <= items.filter(|item: ItemView| !item.is_pinned).len() + 1,
    decreases items.len(),
{
    reveal(Seq::filter);
    let after = items.update(j, ItemView { is_pinned: false, ..items[j] });
    let before = items.drop_last();
    if j < items.len() - 1 {
        lemma_one_more_unpinned(before, j);
        assert(after.drop_last() =~= before.update(j, ItemView { is_pinned: false, ..before[j] }));
    } else {
        assert(after.drop_last() =~= before);
    }
}

// ---- every command ----

/// A command is refused where it was already applied, and otherwise where its sender saw another
/// revision; no other command is refused for these reasons.
pub proof fn replays_and_stale_senders_are_refused(
    w: WorkspaceView,
    command_id: u128,
    expected_revision: u64,
    action: ActionView,
    now: i128,
)
    ensures
        ({
            let outcome = apply_outcome(w, command_id, expected_revision, action, now);
            let seen = exists|i: int|
                0 <= i < w.processed.len() && #[trigger] w.processed[i] == command_id;
            &&& seen <==> outcome == Err::<WorkspaceView, _>(WorkspaceError::DuplicateCommand)
            &&& !seen && expected_revision != w.revision <==> outcome == Err::<WorkspaceView, _>(
                WorkspaceError::RevisionConflict,
            )
        }),
{
    if w.processed.contains(command_id) {
        let i = choose|i: int| 0 <= i < w.processed.len() && w.processed[i] == command_id;
        assert(w.processed[i] == command_id);
    }
}

/// An applied command raises the revision by one, up to the largest number, and is remembered as
/// the last; of the earlier ones the oldest is forgotten where 1,024 were remembered.
pub proof fn applied_commands_are_counted_and_remembered(
    w: WorkspaceView,
    command_id: u128,
    expected_revision: u64,
    action: ActionView,
    now: i128,
    after: WorkspaceView,
)
    requires
        apply_outcome(w, command_id, expected_revision, action, now) == Ok::<_, WorkspaceError>(
            after,
        ),
    ensures
        w.revision < 0xffff_ffff_ffff_ffff ==> after.revision == w.revision + 1,
        w.revision == 0xffff_ffff_ffff_ffff ==> after.revision == w.revision,
        w.processed.len() < 1024 ==> after.processed == w.processed.push(command_id),
        w.processed.len() >= 1024 ==> after.processed == w.processed.drop_first().push(command_id),
{
    if w.processed.len() >= 1024 {
        assert(w.processed.push(command_id).drop_first() =~= w.processed.drop_first().push(
            command_id,
        ));
    }
}

/// Apart from what every command counts and remembers, the workspace is made of these parts.
pub open spec fn made_of(after: WorkspaceView, parts: WorkspaceView) -> bool {
    after == WorkspaceView { revision: after.revision, processed: after.processed, ..parts }
}

/// Pausing and resuming set the capture state, and nothing else.
pub proof fn capture_is_turned_on_and_off(w: WorkspaceView, command_id: u128, now: i128)
    requires
        forall|i: int| 0 <= i < w.processed.len() ==> #[trigger] w.processed[i] != command_id,
    ensures
        apply_outcome(w, command_id, w.revision, ActionView::PauseCapture, now) matches Ok(after)
            && after.capture_state is Paused && after.items == w.items && after.retention
            == w.retention && after.search_query == w.search_query && after.excluded == w.excluded,
        apply_outcome(w, command_id, w.revision, ActionView::ResumeCapture, now) matches Ok(after)
            && after.capture_state is Active && after.items == w.items && after.retention
            == w.retention && after.search_query == w.search_query && after.excluded == w.excluded,
{
}

/// A search of at most 256 characters replaces the search, and nothing else; a longer one is
/// refused.
pub proof fn searches_are_bounded_and_replaced(
    w: WorkspaceView,
    command_id: u128,
    query: Seq<char>,
    now: i128,
)
    requires
        forall|i: int| 0 <= i < w.processed.len() ==> #[trigger] w.processed[i] != command_id,
    ensures
        query.len() <= 256 ==> (apply_outcome(
            w,
            command_id,
            w.revision,
            ActionView::SetSearch(query),
            now,
        ) matches Ok(after) && after.search_query == query && after.items == w.items
            && after.retention == w.retention && after.capture_state == w.capture_state
            && after.excluded == w.excluded),
        query.len() > 256 ==> apply_outcome(
            w,
            command_id,
            w.revision,
            ActionView::SetSearch(query),
            now,
        ) == Err::<WorkspaceView, _>(WorkspaceError::InvalidSearch),
{
}

proof fn lemma_first_at(items: Seq<ItemView>, pred: spec_fn(ItemView) -> bool, i: int)
    requires
        0 <= i < items.len(),
        pred(items[i]),
        forall|j: int| 0 <= j < i ==> !pred(#[trigger] items[j]),
    ensures
        first_index(items, pred) == i,
{
    lemma_first_index_bounds(items, pred);
    let k = first_index(items, pred);
    if k < i {
        assert(!pred(items[k]));
    } else if k > i {
        assert(!pred(items[i]));
    }
}

proof fn lemma_nowhere(items: Seq<ItemView>, pred: spec_fn(ItemView) -> bool)
    requires
        forall|j: int| 0 <= j < items.len() ==> !pred(#[trigger] items[j]),
    ensures
        first_index(items, pred) == items.len(),
{
    lemma_first_index_bounds(items, pred);
    let k = first_index(items, pred);
    if k < items.len() {
        assert(!pred(items[k]));
    }
}

/// Pinning sets the pin of the first item of that identifier and nothing else; unpinning takes it
/// off and then applies retention.
pub proof fn pins_are_set_on_the_named_item(
    w: WorkspaceView,
    command_id: u128,
    item_id: u128,
    now: i128,
    i: int,
)
    requires
        forall|j: int| 0 <= j < w.processed.len() ==> #[trigger] w.processed[j] != command_id,
        0 <= i < w.items.len(),
        w.items[i].item_id == item_id,
        forall|j: int| 0 <= j < i ==> (#[trigger] w.items[j]).item_id != item_id,
    ensures
        ({
            let outcome = apply_outcome(
                w,
                command_id,
                w.revision,
                ActionView::PinItem(item_id),
                now,
            );
            outcome matches Ok(after) && {
                &&& after.items.len() == w.items.len()
                &&& after.items[i] == (ItemView { is_pinned: true, ..w.items[i] })
                &&& forall|j: int|
                    0 <= j < w.items.len() && j != i ==> #[trigger] after.items[j] == w.items[j]
                &&& made_of(after, WorkspaceView { items: after.items, ..w })
            }
        }),
        ({
            let outcome = apply_outcome(
                w,
                command_id,
                w.revision,
                ActionView::UnpinItem(item_id),
                now,
            );
            outcome matches Ok(after) && {
                &&& kept_by_age_and_count(
                    w.items.update(i, ItemView { is_pinned: false, ..w.items[i] }),
                    after.items,
                    w.retention,
                    now,
                )
                &&& made_of(after, WorkspaceView { items: after.items, ..w })
            }
        }),
{
    lemma_first_at(w.items, has_id(item_id), i);
    retention_goes_by_age_and_count(
        w.items.update(i, ItemView { is_pinned: false, ..w.items[i] }),
        w.retention,
        now,
    );
}

/// After an item was deleted no item has its identifier; all other items, pinned or not, are as
/// they were and in their order, and nothing else changes.
pub proof fn deleting_removes_the_named_item_alone(
    w: WorkspaceView,
    command_id: u128,
    item_id: u128,
    now: i128,
    i: int,
)
    requires
        forall|j: int| 0 <= j < w.processed.len() ==> #[trigger] w.processed[j] != command_id,
        0 <= i < w.items.len(),
        w.items[i].item_id == item_id,
    ensures
        ({
            let outcome = apply_outcome(
                w,
                command_id,
                w.revision,
                ActionView::DeleteItem(item_id),
                now,
            );
            outcome matches Ok(after) && {
                &&& forall|k: int|
                    0 <= k < after.items.len() ==> (#[trigger] after.items[k]).item_id != item_id
                &&& after.items == w.items.filter(|item: ItemView| item.item_id != item_id)
                &&& forall|j: int|
                    0 <= j < w.items.len() && (#[trigger] w.items[j]).item_id != item_id ==>
                        after.items.contains(w.items[j])
                &&& made_of(after, WorkspaceView { items: after.items, ..w })
            }
        }),
{
    let rest = |item: ItemView| item.item_id != item_id;
    lemma_first_index_bounds(w.items, has_id(item_id));
    if first_index(w.items, has_id(item_id)) == w.items.len() {
        assert(!(has_id(item_id))(w.items[i]));
    }
    lemma_filter_same(w.items, other_than(item_id), rest);
    let kept = w.items.filter(rest);
    assert forall|k: int| 0 <= k < kept.len() implies (#[trigger] kept[k]).item_id != item_id by {
        assert(rest(kept[k]));
    }
    assert forall|j: int|
        0 <= j < w.items.len() && (#[trigger] w.items[j]).item_id != item_id implies kept.contains(
        w.items[j],
    ) by {
        assert(rest(w.items[j]));
    }
}

/// Commands on an item that the history does not hold are refused.
pub proof fn commands_on_unknown_items_are_refused(
    w: WorkspaceView,
    command_id: u128,
    item_id: u128,
    now: i128,
)
    requires
        forall|j: int| 0 <= j < w.processed.len() ==> #[trigger] w.processed[j] != command_id,
        forall|j: int| 0 <= j < w.items.len() ==> (#[trigger] w.items[j]).item_id != item_id,
    ensures
        apply_outcome(w, command_id, w.revision, ActionView::PinItem(item_id), now) == Err::<
            WorkspaceView,
            _,
        >(WorkspaceError::ItemNotFound),
        apply_outcome(w, command_id, w.revision, ActionView::UnpinItem(item_id), now) == Err::<
            WorkspaceView,
            _,
        >(WorkspaceError::ItemNotFound),
        apply_outcome(w, command_id, w.revision, ActionView::DeleteItem(item_id), now) == Err::<
            WorkspaceView,
            _,
        >(WorkspaceError::ItemNotFound),
{
    lemma_nowhere(w.items, has_id(item_id));
}

/// After clearing, every item is pinned, and the items are the pinned ones that were there, in
/// their order; nothing else changes.
pub proof fn clearing_leaves_the_pinned_items_alone(w: WorkspaceView, command_id: u128, now: i128)
    requires
        forall|j: int| 0 <= j < w.processed.len() ==> #[trigger] w.processed[j] != command_id,
    ensures
        ({
            let outcome = apply_outcome(
                w,
                command_id,
                w.revision,
                ActionView::ClearUnpinned,
                now,
            );
            outcome matches Ok(after) && {
                &&& forall|k: int|
                    0 <= k < after.items.len() ==> (#[trigger] after.items[k]).is_pinned
                &&& after.items == w.items.filter(|item: ItemView| item.is_pinned)
                &&& forall|j: int|
                    0 <= j < w.items.len() && (#[trigger] w.items[j]).is_pinned ==>
                        after.items.contains(w.items[j])
                &&& made_of(after, WorkspaceView { items: after.items, ..w })
            }
        }),
{
    let rule = |item: ItemView| item.is_pinned;
    lemma_filter_same(w.items, pinned(), rule);
    let kept = w.items.filter(rule);
    assert forall|k: int| 0 <= k < kept.len() implies (#[trigger] kept[k]).is_pinned by {
        assert(rule(kept[k]));
    }
    assert forall|j: int|
        0 <= j < w.items.len() && (#[trigger] w.items[j]).is_pinned implies kept.contains(
        w.items[j],
    ) by {
        assert(rule(w.items[j]));
    }
}

/// A policy of 1 to 10,000 items and 1 to 365 days is set and applied at once; any other is
/// refused.
pub proof fn policies_are_bounded_and_applied_at_once(
    w: WorkspaceView,
    command_id: u128,
    policy: RetentionPolicy,
    now: i128,
)
    requires
        forall|j: int| 0 <= j < w.processed.len() ==> #[trigger] w.processed[j] != command_id,
    ensures
        ({
            let outcome = apply_outcome(
                w,
                command_id,
                w.revision,
                ActionView::SetRetention(policy),
                now,
            );
            if 1 <= policy.max_items <= 10_000 && 1 <= policy.max_age_days <= 365 {
                outcome matches Ok(after) && {
                    &&& after.retention == policy
                    &&& kept_by_age_and_count(w.items, after.items, policy, now)
                    &&& made_of(
                        after,
                        WorkspaceView { items: after.items, retention: policy, ..w },
                    )
                }
            } else {
                outcome == Err::<WorkspaceView, _>(WorkspaceError::InvalidRetention)
            }
        }),
{
    retention_goes_by_age_and_count(w.items, policy, now);
}

/// A fingerprint is `sha256:` and 64 lower-case hexadecimal digits, and nothing else.
pub proof fn fingerprints_are_prefixed_hashes(value: Seq<char>)
    ensures
        valid_fingerprint(value) <==> value.len() == 71 && value[0] == 's' && value[1] == 'h'
            && value[2] == 'a' && value[3] == '2' && value[4] == '5' && value[5] == '6' && value[6]
            == ':' && forall|i: int|
            7 <= i < 71 ==> '0' <= #[trigger] value[i] <= '9' || 'a' <= value[i] <= 'f',
{
    reveal_strlit("sha256:");
    if value.len() == 71 {
        assert(value.subrange(0, 7) =~= seq![
            value[0],
            value[1],
            value[2],
            value[3],
            value[4],
            value[5],
            value[6],
        ]);
        if valid_fingerprint(value) {
            assert(value.subrange(0, 7)[0] == "sha256:"@[0]);
            assert(value.subrange(0, 7)[1] == "sha256:"@[1]);
            assert(value.subrange(0, 7)[2] == "sha256:"@[2]);
            assert(value.subrange(0, 7)[3] == "sha256:"@[3]);
            assert(value.subrange(0, 7)[4] == "sha256:"@[4]);
            assert(value.subrange(0, 7)[5] == "sha256:"@[5]);
            assert(value.subrange(0, 7)[6] == "sha256:"@[6]);
        } else if value[0] == 's' && value[1] == 'h' && value[2] == 'a' && value[3] == '2'
            && value[4] == '5' && value[5] == '6' && value[6] == ':' {
            assert(value.subrange(0, 7) =~= "sha256:"@);
        }
    }
}

/// At most 256 fingerprints, every one of them valid, become the exclusions; otherwise none does.
/// Nothing else changes: items that are already there stay.
pub proof fn exclusions_are_the_given_fingerprints(
    w: WorkspaceView,
    command_id: u128,
    fingerprints: Seq<Seq<char>>,
    now: i128,
)
    requires
        forall|j: int| 0 <= j < w.processed.len() ==> #[trigger] w.processed[j] != command_id,
    ensures
        ({
            let outcome = apply_outcome(
                w,
                command_id,
                w.revision,
                ActionView::SetSourceExclusions(fingerprints),
                now,
            );
            if fingerprints.len() <= 256 && forall|i: int|
                0 <= i < fingerprints.len() ==> valid_fingerprint(#[trigger] fingerprints[i]) {
                outcome matches Ok(after) && {
                    &&& forall|value: Seq<char>| #[trigger]
                        after.excluded.contains(value) <==> fingerprints.contains(value)
                    &&& made_of(after, WorkspaceView { excluded: after.excluded, ..w })
                }
            } else {
                outcome == Err::<WorkspaceView, _>(WorkspaceError::InvalidSourceFingerprint)
            }
        }),
{
}

/// Text is taken in where capture is active, the text has 1 to 65,536 characters in at most
/// 1,048,576 bytes, its size and hash are as declared, and its source, where there is one, has a
/// valid fingerprint that is not excluded. Otherwise the first of these that fails is the error.
pub proof fn text_is_taken_in_under_these_conditions(
    w: WorkspaceView,
    command_id: u128,
    item: ItemView,
    now: i128,
)
    requires
        forall|j: int| 0 <= j < w.processed.len() ==> #[trigger] w.processed[j] != command_id,
    ensures
        ({
            let outcome = apply_outcome(
                w,
                command_id,
                w.revision,
                ActionView::IngestText(item),
                now,
            );
            let sized = 1 <= item.text.len() <= 65_536 && encode_utf8(item.text).len() <= 1_048_576
                && item.byte_size == encode_utf8(item.text).len();
            let hashed = item.content_sha256 == content_hash(item.text);
            let marked = item.source_fingerprint matches Some(value) ==> valid_fingerprint(value);
            let allowed = item.source_fingerprint matches Some(value) ==> !w.excluded.contains(
                value,
            );
            if w.capture_state is Paused {
                outcome == Err::<WorkspaceView, _>(WorkspaceError::CapturePaused)
            } else if !sized {
                outcome == Err::<WorkspaceView, _>(WorkspaceError::InvalidContentSize)
            } else if !hashed {
                outcome == Err::<WorkspaceView, _>(WorkspaceError::InvalidContentHash)
            } else if !marked {
                outcome == Err::<WorkspaceView, _>(WorkspaceError::InvalidSourceFingerprint)
            } else if !allowed {
                outcome == Err::<WorkspaceView, _>(WorkspaceError::ExcludedSource)
            } else {
                outcome matches Ok(after) && made_of(
                        after,
                    WorkspaceView { items: after.items, ..w },
                )
            }
        }),
{
}

/// Text that is taken in stands in front of the history, to which retention is then applied.
/// Where the policy removes duplicates and an item has the same content hash, the first such item
/// comes to the front in its place, with the new time and source.
pub proof fn new_text_comes_to_the_front(
    w: WorkspaceView,
    command_id: u128,
    expected_revision: u64,
    item: ItemView,
    now: i128,
    after: WorkspaceView,
    i: int,
)
    requires
        apply_outcome(w, command_id, expected_revision, ActionView::IngestText(item), now) == Ok::<
            _,
            WorkspaceError,
        >(after),
        0 <= i <= w.items.len(),
        i < w.items.len() ==> w.items[i].content_sha256 == item.content_sha256,
        forall|j: int|
            0 <= j < i ==> (#[trigger] w.items[j]).content_sha256 != item.content_sha256,
    ensures
        w.retention.deduplicate && i < w.items.len() ==> kept_by_age_and_count(
            seq![
                ItemView {
                    captured_at: item.captured_at,
                    source_fingerprint: item.source_fingerprint,
                    ..w.items[i]
                },
            ] + w.items.remove(i),
            after.items,
            w.retention,
            now,
        ),
        !(w.retention.deduplicate && i < w.items.len()) ==> kept_by_age_and_count(
            seq![item] + w.items,
            after.items,
            w.retention,
            now,
        ),
{
    let placed = crate::workspace::model::with_item(w.items, w.retention, item);
    if i < w.items.len() {
        lemma_first_at(w.items, has_hash(item.content_sha256), i);
    } else {
        lemma_nowhere(w.items, has_hash(item.content_sha256));
    }
    retention_goes_by_age_and_count(placed, w.retention, now);
    if w.retention.deduplicate && i < w.items.len() {
        assert(placed =~= seq![
            ItemView {
                captured_at: item.captured_at,
                source_fingerprint: item.source_fingerprint,
                ..w.items[i]
            },
        ] + w.items.remove(i));
    } else {
        assert(placed =~= seq![item] + w.items);
    }
}

/// A text's hash is written as 64 lower-case hexadecimal digits, two for each byte of the SHA-256
/// digest, the higher one first.
pub proof fn hashes_are_written_in_lower_case_hex(text: Seq<char>)
    ensures
        ({
            let digest = sha256_digest(encode_utf8(text));
            let hash = content_hash(text);
            &&& hash.len() == 2 * digest.len()
            &&& forall|i: int|
                0 <= i < digest.len() ==> {
                    let high = #[trigger] digest[i] / 16;
                    let low = digest[i] % 16;
                    &&& hash[2 * i] == "0123456789abcdef"@[high as int]
                    &&& hash[2 * i + 1] == "0123456789abcdef"@[low as int]
                }
        }),
{
    reveal_strlit("0123456789abcdef");
}

// ---- the search ----

/// The items that a search shows are those in whose lower-case text the lower-case query is a
/// contiguous part, or all where the query is empty: the pinned ones first, in their order.
pub proof fn searches_show_the_texts_that_hold_the_query(w: WorkspaceView)
    ensures
        visible(w.items, shown(w)) == w.items.filter(
            |item: ItemView|
                item.is_pinned && (w.search_query.len() == 0 || exists|k: int|
                    0 <= k <= lowercase(item.text).len() - lowercase(w.search_query).len()
                        && #[trigger] lowercase(item.text).subrange(
                        k,
                        k + lowercase(w.search_query).len(),
                    ) == lowercase(w.search_query)),
        ) + w.items.filter(
            |item: ItemView|
                !item.is_pinned && (w.search_query.len() == 0 || exists|k: int|
                    0 <= k <= lowercase(item.text).len() - lowercase(w.search_query).len()
                        && #[trigger] lowercase(item.text).subrange(
                        k,
                        k + lowercase(w.search_query).len(),
                    ) == lowercase(w.search_query)),
        ),
        forall|item: ItemView| #[trigger]
            visible(w.items, shown(w)).contains(item) <==> w.items.contains(item) && (
            w.search_query.len() == 0 || exists|k: int|
                0 <= k <= lowercase(item.text).len() - lowercase(w.search_query).len()
                    && #[trigger] lowercase(item.text).subrange(
                    k,
                    k + lowercase(w.search_query).len(),
                ) == lowercase(w.search_query)),
{
    let query = lowercase(w.search_query);
    let found = |item: ItemView|
        w.search_query.len() == 0 || exists|k: int|
            0 <= k <= lowercase(item.text).len() - query.len() && #[trigger] lowercase(
                item.text,
            ).subrange(k, k + query.len()) == query;
    let up = |item: ItemView|
        item.is_pinned && (w.search_query.len() == 0 || exists|k: int|
            0 <= k <= lowercase(item.text).len() - lowercase(w.search_query).len()
                && #[trigger] lowercase(item.text).subrange(
                k,
                k + lowercase(w.search_query).len(),
            ) == lowercase(w.search_query));
    let down = |item: ItemView|
        !item.is_pinned && (w.search_query.len() == 0 || exists|k: int|
            0 <= k <= lowercase(item.text).len() - lowercase(w.search_query).len()
                && #[trigger] lowercase(item.text).subrange(
                k,
                k + lowercase(w.search_query).len(),
            ) == lowercase(w.search_query));
    assert forall|item: ItemView| (w.search_query.len() == 0 || #[trigger] matches_query(
        lowercase(item.text),
        query,
    )) == found(item) by {
        if query.len() == 0 {
            assert(lowercase(item.text).subrange(0, 0int + query.len()) =~= query);
        }
    }
    visible_items_match_with_pins_first(w);
    let shows_up = crate::workspace::laws::shows(w.search_query, true);
    let shows_down = crate::workspace::laws::shows(w.search_query, false);
    assert forall|item: ItemView| #[trigger] shows_up(item) == up(item) by {
        assert((w.search_query.len() == 0 || matches_query(lowercase(item.text), query)) == found(
            item,
        ));
    }
    assert forall|item: ItemView| #[trigger] shows_down(item) == down(item) by {
        assert((w.search_query.len() == 0 || matches_query(lowercase(item.text), query)) == found(
            item,
        ));
    }
    lemma_filter_same(w.items, shows_up, up);
    lemma_filter_same(w.items, shows_down, down);
    let all = w.items.filter(up) + w.items.filter(down);
    assert forall|item: ItemView| #[trigger] all.contains(item) <==> w.items.contains(item)
        && found(item) by {
        if all.contains(item) {
            let k = choose|k: int| 0 <= k < all.len() && all[k] == item;
            if k < w.items.filter(up).len() {
                assert(w.items.filter(up)[k] == item);
                assert(up(w.items.filter(up)[k]));
                w.items.lemma_filter_contains_rev(up, item);
            } else {
                let d = k - w.items.filter(up).len();
                assert(w.items.filter(down)[d] == item);
                assert(down(w.items.filter(down)[d]));
                w.items.lemma_filter_contains_rev(down, item);
            }
        }
        if w.items.contains(item) && found(item) {
            let i = choose|i: int| 0 <= i < w.items.len() && w.items[i] == item;
            if item.is_pinned {
                assert(up(w.items[i]));
                assert(w.items.filter(up).contains(item));
                let k = choose|k: int|
                    0 <= k < w.items.filter(up).len() && w.items.filter(up)[k] == item;
                assert(all[k] == item);
            } else {
                assert(down(w.items[i]));
                assert(w.items.filter(down).contains(item));
                let k = choose|k: int|
                    0 <= k < w.items.filter(down).len() && w.items.filter(down)[k] == item;
                assert(all[w.items.filter(up).len() + k] == item);
            }
        }
    }
}

/// The indices of the items that are marked and whose pin is as given, in ascending order.
spec fn marked_indices(items: Seq<ItemView>, marks: Seq<bool>, is_pinned: bool) -> Seq<int>
    decreases items.len(),
{
    if items.len() == 0 {
        Seq::empty()
    } else {
        let last = items.len() - 1;
        let before = marked_indices(items.drop_last(), marks, is_pinned);
        if marks[last] && items[last].is_pinned == is_pinned {
            before.push(last)
        } else {
            before
        }
    }
}

/// `part` are the items at the ascending indices `at`, which are those of all marked items whose
/// pin is as given.
pub open spec fn picks_at(
    items: Seq<ItemView>,
    marks: Seq<bool>,
    is_pinned: bool,
    part: Seq<ItemView>,
    at: Seq<int>,
) -> bool {
    &&& part.len() == at.len()
    &&& forall|k: int|
        0 <= k < at.len() ==> 0 <= #[trigger] at[k] < items.len() && part[k] == items[at[k]]
    &&& forall|j: int, k: int| 0 <= j < k < at.len() ==> #[trigger] at[j] < #[trigger] at[k]
    &&& forall|i: int|
        0 <= i < items.len() ==> (#[trigger] at.contains(i) <==> marks[i] && items[i].is_pinned
            == is_pinned)
}

proof fn lemma_marked(items: Seq<ItemView>, marks: Seq<bool>, is_pinned: bool)
    ensures
        picks_at(
            items,
            marks,
            is_pinned,
            shown_with_pin(items, marks, is_pinned),
            marked_indices(items, marks, is_pinned),
        ),
    decreases items.len(),
{
    if items.len() > 0 {
        let last = items.len() - 1;
        let rest = items.drop_last();
        lemma_marked(rest, marks, is_pinned);
        let before = marked_indices(rest, marks, is_pinned);
        let at = marked_indices(items, marks, is_pinned);
        assert forall|i: int| 0 <= i < items.len() implies (#[trigger] at.contains(i) <==> marks[i]
            && items[i].is_pinned == is_pinned) by {
            if i < last {
                assert(rest[i] == items[i]);
                if before.contains(i) {
                    let k = choose|k: int| 0 <= k < before.len() && before[k] == i;
                    assert(at[k] == i);
                }
                if at.contains(i) {
                    let k = choose|k: int| 0 <= k < at.len() && at[k] == i;
                    assert(before[k] == i);
                }
                assert(before.contains(i) <==> marks[i] && rest[i].is_pinned == is_pinned);
            } else if marks[i] && items[i].is_pinned == is_pinned {
                assert(at[at.len() - 1] == i);
            } else if at.contains(i) {
                let k = choose|k: int| 0 <= k < at.len() && at[k] == i;
                assert(before[k] < last);
            }
        }
    }
}

/// Of marked items the pinned ones are shown first, then the others, both in their order.
pub proof fn marked_items_are_shown_pins_first(items: Seq<ItemView>, marks: Seq<bool>)
    ensures
        exists|up: Seq<ItemView>, down: Seq<ItemView>, at: Seq<int>, from: Seq<int>|
            visible(items, marks) == up + down && #[trigger] picks_at(items, marks, true, up, at)
                && #[trigger] picks_at(items, marks, false, down, from),
{
    lemma_marked(items, marks, true);
    lemma_marked(items, marks, false);
}

// ---- beginnings ----

/// A new workspace has no history, no search and no exclusions, remembers no command, keeps 250
/// items for 30 days without duplicates, and captures nothing yet.
pub proof fn new_workspaces_are_empty_and_paused()
    ensures
        ({
            let w = initial_workspace();
            &&& w.revision == 0
            &&& w.capture_state is Paused
            &&& w.retention.max_items == 250
            &&& w.retention.max_age_days == 30
            &&& w.retention.deduplicate
            &&& w.search_query.len() == 0
            &&& forall|value: Seq<char>| !#[trigger] w.excluded.contains(value)
            &&& w.items.len() == 0
            &&& w.processed.len() == 0
        }),
{
}

/// Stored parts are accepted exactly where their policy, search, exclusions and items are such as
/// commands could have made.
pub proof fn stored_parts_are_accepted_under_these_conditions(
    retention: RetentionPolicy,
    search_query: Seq<char>,
    exclusions: Seq<Seq<char>>,
    items: Seq<ItemView>,
)
    ensures
        valid_parts(retention, search_query, exclusions, items) <==> {
            &&& 1 <= retention.max_items <= 10_000
            &&& 1 <= retention.max_age_days <= 365
            &&& search_query.len() <= 256
            &&& exclusions.len() <= 256
            &&& forall|i: int|
                0 <= i < exclusions.len() ==> valid_fingerprint(#[trigger] exclusions[i])
            &&& forall|i: int|
                0 <= i < items.len() ==> {
                    let item = #[trigger] items[i];
                    &&& 1 <= item.text.len() <= 65_536
                    &&& encode_utf8(item.text).len() <= 1_048_576
                    &&& item.byte_size == encode_utf8(item.text).len()
                    &&& item.content_sha256 == content_hash(item.text)
                    &&& item.source_fingerprint matches Some(value) ==> valid_fingerprint(value)
                }
        },
{
}

/// A command carries to the reducer what its sender put into it.
pub proof fn commands_carry_what_was_put_in(action: WorkspaceAction)
    ensures
        match action {
            WorkspaceAction::PauseCapture => action@ is PauseCapture,
            WorkspaceAction::ResumeCapture => action@ is ResumeCapture,
            WorkspaceAction::SetSearch(query) => action@ == ActionView::SetSearch(query@),
            WorkspaceAction::PinItem(item_id) => action@ == ActionView::PinItem(item_id),
            WorkspaceAction::UnpinItem(item_id) => action@ == ActionView::UnpinItem(item_id),
            WorkspaceAction::DeleteItem(item_id) => action@ == ActionView::DeleteItem(item_id),
            WorkspaceAction::ClearUnpinned => action@ is ClearUnpinned,
            WorkspaceAction::SetRetention(policy) => action@ == ActionView::SetRetention(policy),
            WorkspaceAction::SetSourceExclusions(fingerprints) => {
                &&& action@ is SetSourceExclusions
                &&& action@->SetSourceExclusions_0.len() == fingerprints@.len()
                &&& forall|i: int|
                    0 <= i < fingerprints@.len() ==> #[trigger] action@->SetSourceExclusions_0[i]
                        == fingerprints@[i]@
            },
            WorkspaceAction::IngestText {
                item_id,
                text,
                content_sha256,
                byte_size,
                captured_at,
                source_fingerprint,
            } => action@ matches ActionView::IngestText(item) && {
                &&& item.item_id == item_id
                &&& item.text == text@
                &&& item.content_sha256 == content_sha256@
                &&& item.byte_size == byte_size
                &&& item.captured_at == captured_at.unix_nanos
                &&& !item.is_pinned
                &&& match source_fingerprint {
                    Some(value) => item.source_fingerprint == Some(value@),
                    None => item.source_fingerprint is None,
                }
            },
        },
{
}

/// Every refusal has its own sentence.
pub proof fn refusals_are_named(error: WorkspaceError)
    ensures
        workspace_error_text(error) == (match error {
            WorkspaceError::CapturePaused => "clipboard capture is paused",
            WorkspaceError::DuplicateCommand => "the command was already applied",
            WorkspaceError::ExcludedSource => "the clipboard source is excluded",
            WorkspaceError::InvalidContentHash => "clipboard content metadata is invalid",
            WorkspaceError::InvalidContentSize =>
                "clipboard content is outside the supported bounds",
            WorkspaceError::InvalidRetention =>
                "the retention policy is outside the supported bounds",
            WorkspaceError::InvalidSearch => "the search query is outside the supported bounds",
            WorkspaceError::InvalidSnapshot => "the stored workspace is invalid",
            WorkspaceError::InvalidSourceFingerprint => "a source fingerprint is malformed",
            WorkspaceError::ItemNotFound => "the clipboard item does not exist",
            WorkspaceError::RevisionConflict => "the workspace revision changed",
        })@,
{
}

/// Items are seen field by field, and lists of them item by item.
pub proof fn items_are_seen_as_they_are(
    items: Seq<ClipboardItem>,
    refs: Seq<&ClipboardItem>,
    i: int,
)
    ensures
        items_view(items).len() == items.len(),
        item_refs(refs).len() == refs.len(),
        0 <= i < refs.len() ==> item_refs(refs)[i] == refs[i]@,
        0 <= i < items.len() ==> {
            let seen = items_view(items)[i];
            &&& seen.item_id == items[i].item_id
            &&& seen.text == items[i].text@
            &&& seen.content_sha256 == items[i].content_sha256@
            &&& seen.byte_size == items[i].byte_size
            &&& seen.captured_at == items[i].captured_at.unix_nanos
            &&& seen.is_pinned == items[i].is_pinned
            &&& match items[i].source_fingerprint {
                Some(value) => seen.source_fingerprint == Some(value@),
                None => seen.source_fingerprint is None,
            }
        },
{
}

/// The features of the desktop have these names.
pub proof fn features_have_their_names()
    ensures
        DESKTOP_FEATURE_IDS@.len() == 12,
        DESKTOP_FEATURE_IDS@[0]@ == "clipboard.capture.pause"@,
        DESKTOP_FEATURE_IDS@[1]@ == "clipboard.clear_unpinned"@,
        DESKTOP_FEATURE_IDS@[2]@ == "clipboard.deduplicate"@,
        DESKTOP_FEATURE_IDS@[3]@ == "clipboard.delete"@,
        DESKTOP_FEATURE_IDS@[4]@ == "clipboard.history.text"@,
        DESKTOP_FEATURE_IDS@[5]@ == "clipboard.pin"@,
        DESKTOP_FEATURE_IDS@[6]@ == "clipboard.retention"@,
        DESKTOP_FEATURE_IDS@[7]@ == "clipboard.search"@,
        DESKTOP_FEATURE_IDS@[8]@ == "desktop.tray.lifecycle"@,
        DESKTOP_FEATURE_IDS@[9]@ == "desktop.window.close_to_tray"@,
        DESKTOP_FEATURE_IDS@[10]@ == "desktop.window.regular"@,
        DESKTOP_FEATURE_IDS@[11]@ == "privacy.source_exclusions"@,
{
}

/// Texts stand in ascending order where each comes before all later ones.
pub proof fn listed_texts_ascend(values: Seq<Seq<char>>)
    ensures
        ascending(values) <==> forall|i: int, j: int|
            0 <= i < j < values.len() ==> text_before(#[trigger] values[i], #[trigger] values[j]),
{
}

} // verus!
