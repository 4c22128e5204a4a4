//! What holds of the workspace across commands.
use crate::std_text::lowercase;
use crate::workspace::model::{
    act, apply_outcome, expired, first_index, first_unpinned, has_hash, has_id,
    initial_workspace, matches_query,
    not_expired, other_than, pinned, retained, shown, shown_with_pin, unpinned, unpinned_count,
    valid_item, valid_items, valid_parts, valid_workspace, visible, with_item, with_pin, ActionView,
    ItemView, WorkspaceView,
};
use crate::workspace::{CaptureState, RetentionPolicy, WorkspaceError, MAX_PROCESSED_COMMANDS};
use vstd::prelude::*;

verus! {

broadcast use vstd::seq_lib::group_filter_ensures;

/// A pass that keeps some items leaves at most as many unpinned ones.
proof fn lemma_filter_unpinned_count(items: Seq<ItemView>, pred: spec_fn(ItemView) -> bool)
    ensures
        unpinned_count(items.filter(pred)) <= unpinned_count(items),
    decreases items.len(),
{
    reveal(Seq::filter);
    if items.len() > 0 {
        let before = items.drop_last();
        lemma_filter_unpinned_count(before, pred);
        if pred(items.last()) {
            assert(items.filter(pred).drop_last() =~= before.filter(pred));
        }
    }
}

proof fn lemma_filter_from(items: Seq<ItemView>, pred: spec_fn(ItemView) -> bool)
    ensures
        forall|item: ItemView| #[trigger] items.filter(pred).contains(item) ==> items.contains(item),
{
    assert forall|item: ItemView| #[trigger] items.filter(pred).contains(item) implies items.contains(
        item,
    ) by {
        items.lemma_filter_contains_rev(pred, item);
    }
}

/// What capping does: nothing new comes in, pinned items stay in their order, and the unpinned
/// ones are at most the limit.
proof fn lemma_first_unpinned(items: Seq<ItemView>, max: nat)
    ensures
        first_unpinned(items, max).filter(pinned()) == items.filter(pinned()),
        unpinned_count(first_unpinned(items, max)) == if unpinned_count(items) < max {
            unpinned_count(items)
        } else {
            max
        },
        forall|item: ItemView| #[trigger]
            first_unpinned(items, max).contains(item) ==> items.contains(item),
        forall|item: ItemView| #[trigger] items.contains(item) && item.is_pinned ==> first_unpinned(
            items,
            max,
        ).contains(item),
    decreases items.len(),
{
    reveal(Seq::filter);
    if items.len() > 0 {
        let before = items.drop_last();
        let kept = first_unpinned(items, max);
        let kept_before = first_unpinned(before, max);
        lemma_first_unpinned(before, max);
        if items.last().is_pinned || unpinned_count(before) < max {
            assert(kept.drop_last() =~= kept_before);
            assert(kept.last() == items.last());
        }
        assert forall|item: ItemView| #[trigger] kept.contains(item) implies items.contains(item) by {
            if kept_before.contains(item) {
                assert(before.contains(item));
                let j = choose|j: int| 0 <= j < before.len() && before[j] == item;
                assert(items[j] == item);
            } else {
                let j = choose|j: int| 0 <= j < kept.len() && kept[j] == item;
                if j < kept_before.len() {
                    assert(kept_before[j] == item);
                }
                assert(items[items.len() - 1] == item);
            }
        }
        assert forall|item: ItemView| #[trigger] items.contains(item) && item.is_pinned implies kept.contains(
            item,
        ) by {
            let j = choose|j: int| 0 <= j < items.len() && items[j] == item;
            if j < before.len() {
                assert(before[j] == item);
                assert(before.contains(item));
                let k = choose|k: int| 0 <= k < kept_before.len() && kept_before[k] == item;
                assert(kept[k] == item);
            } else {
                assert(kept[kept.len() - 1] == item);
            }
        }
    }
}

/// Filtering by two predicates of which the first admits all that the second admits is filtering
/// by the second.
proof fn lemma_filter_of_filter(
    items: Seq<ItemView>,
    first: spec_fn(ItemView) -> bool,
    second: spec_fn(ItemView) -> bool,
)
    requires
        forall|item: ItemView| #[trigger] second(item) ==> first(item),
    ensures
        items.filter(first).filter(second) == items.filter(second),
    decreases items.len(),
{
    reveal(Seq::filter);
    if items.len() > 0 {
        lemma_filter_of_filter(items.drop_last(), first, second);
        if first(items.last()) {
            assert(items.filter(first).drop_last() =~= items.drop_last().filter(first));
        }
    }
}

/// Predicates that agree on every item filter alike.
pub(crate) proof fn lemma_filter_same(
    items: Seq<ItemView>,
    first: spec_fn(ItemView) -> bool,
    second: spec_fn(ItemView) -> bool,
)
    requires
        forall|item: ItemView| #[trigger] first(item) == second(item),
    ensures
        items.filter(first) == items.filter(second),
    decreases items.len(),
{
    reveal(Seq::filter);
    if items.len() > 0 {
        lemma_filter_same(items.drop_last(), first, second);
    }
}

/// Retention never removes a pinned item: the pinned items stay, in their order.
pub proof fn retention_keeps_pinned_items(
    items: Seq<ItemView>,
    policy: RetentionPolicy,
    now: i128,
)
    ensures
        retained(items, policy, now).filter(pinned()) == items.filter(pinned()),
{
    lemma_filter_of_filter(items, not_expired(policy, now), pinned());
    lemma_first_unpinned(items.filter(not_expired(policy, now)), policy.max_items as nat);
}

/// Clearing the history never removes a pinned item.
pub proof fn clearing_keeps_pinned_items(w: WorkspaceView, now: i128)
    ensures
        act(w, ActionView::ClearUnpinned, now) matches Ok(after) && after.items.filter(pinned())
            == w.items.filter(pinned()),
{
    lemma_filter_of_filter(w.items, pinned(), pinned());
}

/// After retention every item is one that was there, no unpinned item has expired, and there are
/// at most as many unpinned items as the policy allows.
pub proof fn retention_enforces_the_policy(
    items: Seq<ItemView>,
    policy: RetentionPolicy,
    now: i128,
)
    ensures
        forall|item: ItemView| #[trigger]
            retained(items, policy, now).contains(item) ==> items.contains(item) && (item.is_pinned
                || !expired(item, policy, now)),
        unpinned_count(retained(items, policy, now)) <= policy.max_items,
{
    let fresh = items.filter(not_expired(policy, now));
    lemma_first_unpinned(fresh, policy.max_items as nat);
    lemma_filter_from(items, not_expired(policy, now));
    assert forall|item: ItemView| #[trigger] retained(items, policy, now).contains(item) implies items.contains(
        item,
    ) && (item.is_pinned || !expired(item, policy, now)) by {
        assert(fresh.contains(item));
        let j = choose|j: int| 0 <= j < fresh.len() && fresh[j] == item;
        assert((not_expired(policy, now))(fresh[j]));
    }
}

proof fn lemma_filter_all(items: Seq<ItemView>, pred: spec_fn(ItemView) -> bool)
    requires
        forall|i: int| 0 <= i < items.len() ==> pred(#[trigger] items[i]),
    ensures
        items.filter(pred) == items,
    decreases items.len(),
{
    reveal(Seq::filter);
    if items.len() > 0 {
        assert(pred(items[items.len() - 1]));
        assert forall|i: int| 0 <= i < items.drop_last().len() implies pred(
            #[trigger] items.drop_last()[i],
        ) by {
            assert(pred(items[i]));
        }
        lemma_filter_all(items.drop_last(), pred);
        assert(items =~= items.drop_last().push(items.last()));
    } else {
        assert(items.filter(pred) =~= items);
    }
}

proof fn lemma_first_unpinned_all(items: Seq<ItemView>, max: nat)
    requires
        unpinned_count(items) <= max,
    ensures
        first_unpinned(items, max) == items,
    decreases items.len(),
{
    reveal(Seq::filter);
    if items.len() > 0 {
        lemma_first_unpinned_all(items.drop_last(), max);
        assert(items =~= items.drop_last().push(items.last()));
    } else {
        assert(first_unpinned(items, max) =~= items);
    }
}

/// Applying retention again at the same moment changes nothing.
pub proof fn retention_is_idempotent(items: Seq<ItemView>, policy: RetentionPolicy, now: i128)
    ensures
        retained(retained(items, policy, now), policy, now) == retained(items, policy, now),
{
    let once = retained(items, policy, now);
    retention_enforces_the_policy(items, policy, now);
    assert forall|i: int| 0 <= i < once.len() implies (not_expired(policy, now))(
        #[trigger] once[i],
    ) by {
        assert(once.contains(once[i]));
    }
    lemma_filter_all(once, not_expired(policy, now));
    lemma_first_unpinned_all(once, policy.max_items as nat);
}

/// Which unpinned items the policy's age limit keeps.
pub open spec fn fresh_unpinned(policy: RetentionPolicy, now: i128) -> spec_fn(ItemView) -> bool {
    |item: ItemView| !item.is_pinned && !expired(item, policy, now)
}

/// Whether retention keeps the item at an index: it is pinned, or it is fresh and fewer fresh
/// unpinned items stand before it than the policy allows.
pub open spec fn keeps(items: Seq<ItemView>, policy: RetentionPolicy, now: i128, i: int) -> bool {
    items[i].is_pinned || (!expired(items[i], policy, now) && items.take(i).filter(
        fresh_unpinned(policy, now),
    ).len() < policy.max_items)
}

/// The indices of the items that retention keeps, in ascending order.
pub open spec fn kept_indices(items: Seq<ItemView>, policy: RetentionPolicy, now: i128) -> Seq<int>
    decreases items.len(),
{
    if items.len() == 0 {
        Seq::empty()
    } else {
        let last = items.len() - 1;
        let before = kept_indices(items.drop_last(), policy, now);
        if keeps(items, policy, now, last) {
            before.push(last)
        } else {
            before
        }
    }
}

/// The unpinned items among those that have not expired are the fresh unpinned ones.
proof fn lemma_fresh_unpinned(items: Seq<ItemView>, policy: RetentionPolicy, now: i128)
    ensures
        items.filter(not_expired(policy, now)).filter(unpinned()) == items.filter(
            fresh_unpinned(policy, now),
        ),
    decreases items.len(),
{
    reveal(Seq::filter);
    if items.len() > 0 {
        let before = items.drop_last();
        lemma_fresh_unpinned(before, policy, now);
        if (not_expired(policy, now))(items.last()) {
            assert(items.filter(not_expired(policy, now)).drop_last() =~= before.filter(
                not_expired(policy, now),
            ));
        }
    }
}

/// Retention is the order-preserving selection of every pinned item and of the first fresh
/// unpinned ones, as many as the policy allows.
pub proof fn retention_selects_pinned_and_first_fresh_items(
    items: Seq<ItemView>,
    policy: RetentionPolicy,
    now: i128,
)
    ensures
        ({
            let at = kept_indices(items, policy, now);
            &&& retained(items, policy, now) == Seq::new(at.len(), |k: int| items[at[k]])
            &&& forall|k: int| 0 <= k < at.len() ==> 0 <= #[trigger] at[k] < items.len()
            &&& forall|j: int, k: int| 0 <= j < k < at.len() ==> #[trigger] at[j] < #[trigger] at[k]
            &&& forall|i: int|
                0 <= i < items.len() ==> (#[trigger] at.contains(i) <==> keeps(
                    items,
                    policy,
                    now,
                    i,
                ))
        }),
    decreases items.len(),
{
    reveal(Seq::filter);
    let at = kept_indices(items, policy, now);
    if items.len() > 0 {
        let last = items.len() - 1;
        let before = items.drop_last();
        let at_before = kept_indices(before, policy, now);
        let fresh = not_expired(policy, now);
        retention_selects_pinned_and_first_fresh_items(before, policy, now);
        lemma_fresh_unpinned(before, policy, now);
        assert(items.take(last) =~= before);
        if fresh(items.last()) {
            assert(items.filter(fresh).drop_last() =~= before.filter(fresh));
            assert(items.filter(fresh).last() == items.last());
        }
        assert(retained(items, policy, now) =~= Seq::new(at.len(), |k: int| items[at[k]]));
        assert forall|i: int| 0 <= i < items.len() implies (#[trigger] at.contains(i) <==> keeps(
            items,
            policy,
            now,
            i,
        )) by {
            if i < last {
                assert(before.take(i) =~= items.take(i));
                assert(at_before.contains(i) <==> keeps(before, policy, now, i));
                if at_before.contains(i) {
                    let k = choose|k: int| 0 <= k < at_before.len() && at_before[k] == i;
                    assert(at[k] == i);
                }
                if at.contains(i) {
                    let k = choose|k: int| 0 <= k < at.len() && at[k] == i;
                    assert(at_before[k] == i);
                }
            } else if keeps(items, policy, now, last) {
                assert(at[at.len() - 1] == last);
            } else if at.contains(i) {
                let k = choose|k: int| 0 <= k < at.len() && at[k] == i;
                assert(at_before[k] < last);
            }
        }
    } else {
        assert(retained(items, policy, now) =~= Seq::new(at.len(), |k: int| items[at[k]]));
    }
}

pub(crate) proof fn lemma_first_index_bounds(items: Seq<ItemView>, pred: spec_fn(ItemView) -> bool)
    ensures
        0 <= first_index(items, pred) <= items.len(),
        first_index(items, pred) < items.len() ==> pred(items[first_index(items, pred)]),
        forall|i: int| 0 <= i < first_index(items, pred) ==> !pred(#[trigger] items[i]),
    decreases items.len(),
{
    if items.len() > 0 && !pred(items[0]) {
        let rest = items.drop_first();
        lemma_first_index_bounds(rest, pred);
        assert forall|i: int| 0 <= i < first_index(items, pred) implies !pred(#[trigger] items[i]) by {
            if i > 0 {
                assert(items[i] == rest[i - 1]);
            }
        }
    }
}

/// Content that is already in the history is not added again where the policy removes
/// duplicates: the item that holds it moves to the front with its identity, text and pin, and
/// with the new time and source; all others stay in their order.
pub proof fn duplicate_content_moves_its_item_to_the_front(
    items: Seq<ItemView>,
    policy: RetentionPolicy,
    item: ItemView,
    i: int,
)
    requires
        policy.deduplicate,
        0 <= i < items.len(),
        items[i].content_sha256 == item.content_sha256,
        forall|j: int| 0 <= j < i ==> (#[trigger] items[j]).content_sha256 != item.content_sha256,
    ensures
        ({
            let after = with_item(items, policy, item);
            &&& after.len() == items.len()
            &&& after.drop_first() == items.remove(i)
            &&& after[0].item_id == items[i].item_id
            &&& after[0].text == items[i].text
            &&& after[0].content_sha256 == items[i].content_sha256
            &&& after[0].byte_size == items[i].byte_size
            &&& after[0].is_pinned == items[i].is_pinned
            &&& after[0].captured_at == item.captured_at
            &&& after[0].source_fingerprint == item.source_fingerprint
        }),
{
    let pred = has_hash(item.content_sha256);
    lemma_first_index_bounds(items, pred);
    let k = first_index(items, pred);
    if k > i {
        assert(!pred(items[i]));
    }
    if k < i {
        assert(items[k].content_sha256 != item.content_sha256);
    }
    assert(with_item(items, policy, item).drop_first() =~= items.remove(i));
}

/// While capture is paused nothing is taken in, and nothing is ever taken in from an excluded
/// source.
pub proof fn paused_capture_and_excluded_sources_take_nothing(
    w: WorkspaceView,
    item: ItemView,
    now: i128,
)
    ensures
        w.capture_state == CaptureState::Paused ==> act(w, ActionView::IngestText(item), now)
            == Err::<WorkspaceView, _>(WorkspaceError::CapturePaused),
        item.source_fingerprint matches Some(value) && w.excluded.contains(value) ==> act(
            w,
            ActionView::IngestText(item),
            now,
        ) is Err,
{
}

/// A command that was applied is refused when it comes again, whatever it then carries.
pub proof fn applied_command_is_refused_again(
    w: WorkspaceView,
    command_id: u128,
    expected_revision: u64,
    action: ActionView,
    now: i128,
    after: WorkspaceView,
    later_revision: u64,
    later_action: ActionView,
    later: i128,
)
    requires
        apply_outcome(w, command_id, expected_revision, action, now) == Ok::<_, WorkspaceError>(
            after,
        ),
    ensures
        apply_outcome(after, command_id, later_revision, later_action, later) == Err::<
            WorkspaceView,
            _,
        >(WorkspaceError::DuplicateCommand),
{
    let all = w.processed.push(command_id);
    assert(all[all.len() - 1] == command_id);
    if all.len() > MAX_PROCESSED_COMMANDS {
        assert(all.drop_first()[all.len() - 2] == command_id);
    } else {
        assert(all.contains(command_id));
    }
}

/// A command is applied only to the revision that its sender saw, and makes the next one.
pub proof fn applied_command_makes_the_next_revision(
    w: WorkspaceView,
    command_id: u128,
    expected_revision: u64,
    action: ActionView,
    now: i128,
    after: WorkspaceView,
)
    requires
        apply_outcome(w, command_id, expected_revision, action, now) == Ok::<_, WorkspaceError>(
            after,
        ),
    ensures
        expected_revision == w.revision,
        w.revision < u64::MAX ==> after.revision == w.revision + 1,
        w.revision == u64::MAX ==> after.revision == u64::MAX,
        after.processed.last() == command_id,
{
}

/// Whether a pinned item of that identity and content is among the items.
pub open spec fn holds_pinned(
    items: Seq<ItemView>,
    item_id: u128,
    text: Seq<char>,
    content_sha256: Seq<char>,
) -> bool {
    exists|i: int|
        0 <= i < items.len() && (#[trigger] items[i]).item_id == item_id && items[i].text == text
            && items[i].content_sha256 == content_sha256 && items[i].is_pinned
}

proof fn lemma_contains_holds(items: Seq<ItemView>, item: ItemView)
    requires
        items.contains(item),
        item.is_pinned,
    ensures
        holds_pinned(items, item.item_id, item.text, item.content_sha256),
{
    let i = choose|i: int| 0 <= i < items.len() && items[i] == item;
    assert(items[i].item_id == item.item_id);
}

proof fn lemma_retained_holds(
    items: Seq<ItemView>,
    policy: RetentionPolicy,
    now: i128,
    item_id: u128,
    text: Seq<char>,
    content_sha256: Seq<char>,
)
    requires
        holds_pinned(items, item_id, text, content_sha256),
    ensures
        holds_pinned(retained(items, policy, now), item_id, text, content_sha256),
{
    let i = choose|i: int|
        0 <= i < items.len() && (#[trigger] items[i]).item_id == item_id && items[i].text == text
            && items[i].content_sha256 == content_sha256 && items[i].is_pinned;
    let fresh = items.filter(not_expired(policy, now));
    assert((not_expired(policy, now))(items[i]));
    assert(fresh.contains(items[i]));
    lemma_first_unpinned(fresh, policy.max_items as nat);
    lemma_contains_holds(retained(items, policy, now), items[i]);
}

/// No command loses a pinned item but the one that deletes or unpins it.
pub proof fn pinned_items_survive_every_other_command(
    w: WorkspaceView,
    command_id: u128,
    expected_revision: u64,
    action: ActionView,
    now: i128,
    after: WorkspaceView,
    item_id: u128,
    text: Seq<char>,
    content_sha256: Seq<char>,
)
    requires
        apply_outcome(w, command_id, expected_revision, action, now) == Ok::<_, WorkspaceError>(
            after,
        ),
        holds_pinned(w.items, item_id, text, content_sha256),
        action != ActionView::DeleteItem(item_id),
        action != ActionView::UnpinItem(item_id),
    ensures
        holds_pinned(after.items, item_id, text, content_sha256),
{
    let i = choose|i: int|
        0 <= i < w.items.len() && (#[trigger] w.items[i]).item_id == item_id && w.items[i].text
            == text && w.items[i].content_sha256 == content_sha256 && w.items[i].is_pinned;
    match action {
        ActionView::PinItem(other) => {
            lemma_first_index_bounds(w.items, has_id(other));
            assert(after.items[i].item_id == item_id);
        },
        ActionView::UnpinItem(other) => {
            lemma_first_index_bounds(w.items, has_id(other));
            let items = with_pin(w.items, other, false).unwrap();
            assert(items[i] == w.items[i]);
            lemma_retained_holds(items, w.retention, now, item_id, text, content_sha256);
        },
        ActionView::DeleteItem(other) => {
            assert((other_than(other))(w.items[i]));
            assert(after.items.contains(w.items[i]));
            lemma_contains_holds(after.items, w.items[i]);
        },
        ActionView::ClearUnpinned => {
            assert((pinned())(w.items[i]));
            assert(after.items.contains(w.items[i]));
            lemma_contains_holds(after.items, w.items[i]);
        },
        ActionView::SetRetention(policy) => {
            lemma_retained_holds(w.items, policy, now, item_id, text, content_sha256);
        },
        ActionView::IngestText(item) => {
            let items = with_item(w.items, w.retention, item);
            let pred = has_hash(item.content_sha256);
            lemma_first_index_bounds(w.items, pred);
            let k = first_index(w.items, pred);
            if w.retention.deduplicate && k < w.items.len() {
                let at: int = if i == k {
                    0
                } else if i < k {
                    i + 1
                } else {
                    i
                };
                assert(items[at].item_id == item_id);
            } else {
                assert(items[i + 1] == w.items[i]);
            }
            lemma_retained_holds(items, w.retention, now, item_id, text, content_sha256);
        },
        _ => {},
    }
}

proof fn lemma_valid_subset(items: Seq<ItemView>, kept: Seq<ItemView>)
    requires
        valid_items(items),
        forall|item: ItemView| #[trigger] kept.contains(item) ==> items.contains(item),
    ensures
        valid_items(kept),
{
    assert forall|i: int| 0 <= i < kept.len() implies valid_item(#[trigger] kept[i]) by {
        assert(kept.contains(kept[i]));
        let j = choose|j: int| 0 <= j < items.len() && items[j] == kept[i];
        assert(valid_item(items[j]));
    }
}

proof fn lemma_retained_valid(items: Seq<ItemView>, policy: RetentionPolicy, now: i128)
    requires
        valid_items(items),
    ensures
        valid_items(retained(items, policy, now)),
        unpinned_count(retained(items, policy, now)) <= policy.max_items,
{
    retention_enforces_the_policy(items, policy, now);
    lemma_valid_subset(items, retained(items, policy, now));
}

proof fn lemma_pinning_unpinned_count(items: Seq<ItemView>, i: int)
    requires
        0 <= i < items.len(),
    ensures
        unpinned_count(items.update(i, ItemView { is_pinned: true, ..items[i] }))
            <= unpinned_count(items),
    decreases items.len(),
{
    reveal(Seq::filter);
    let after = items.update(i, ItemView { is_pinned: true, ..items[i] });
    if i < items.len() - 1 {
        lemma_pinning_unpinned_count(items.drop_last(), i);
        assert(after.drop_last() =~= items.drop_last().update(
            i,
            ItemView { is_pinned: true, ..items.drop_last()[i] },
        ));
    } else {
        assert(after.drop_last() =~= items.drop_last());
    }
}

/// A new workspace is valid, and captures nothing until it is told to.
pub proof fn initial_workspace_is_valid()
    ensures
        valid_workspace(initial_workspace()),
        initial_workspace().capture_state == CaptureState::Paused,
{
    assert(initial_workspace().items.filter(unpinned()).len() == 0);
}

/// Every command leaves a valid workspace valid: bounded search, exclusions and history, items
/// whose recorded size and hash are those of their text.
#[verifier::rlimit(30)]
pub proof fn commands_keep_the_workspace_valid(
    w: WorkspaceView,
    command_id: u128,
    expected_revision: u64,
    action: ActionView,
    now: i128,
    after: WorkspaceView,
)
    requires
        valid_workspace(w),
        apply_outcome(w, command_id, expected_revision, action, now) == Ok::<_, WorkspaceError>(
            after,
        ),
    ensures
        valid_workspace(after),
{
    match action {
        ActionView::PinItem(item_id) => {
            lemma_first_index_bounds(w.items, has_id(item_id));
            lemma_pinning_unpinned_count(w.items, first_index(w.items, has_id(item_id)));
        },
        ActionView::UnpinItem(item_id) => {
            lemma_first_index_bounds(w.items, has_id(item_id));
            lemma_retained_valid(
                with_pin(w.items, item_id, false).unwrap(),
                w.retention,
                now,
            );
        },
        ActionView::DeleteItem(item_id) => {
            lemma_filter_from(w.items, other_than(item_id));
            lemma_valid_subset(w.items, after.items);
            lemma_filter_unpinned_count(w.items, other_than(item_id));
        },
        ActionView::ClearUnpinned => {
            lemma_filter_from(w.items, pinned());
            lemma_valid_subset(w.items, after.items);
            lemma_filter_unpinned_count(w.items, pinned());
        },
        ActionView::SetRetention(policy) => {
            lemma_retained_valid(w.items, policy, now);
        },
        ActionView::SetSourceExclusions(fingerprints) => {
            vstd::seq_lib::seq_to_set_is_finite(fingerprints);
            fingerprints.lemma_cardinality_of_set();
        },
        ActionView::IngestText(item) => {
            let items = with_item(w.items, w.retention, item);
            lemma_first_index_bounds(w.items, has_hash(item.content_sha256));
            assert(valid_items(items));
            lemma_retained_valid(items, w.retention, now);
        },
        _ => {},
    }
}

/// A workspace restored from stored parts is valid.
pub proof fn restored_workspace_is_valid(
    revision: u64,
    capture_state: CaptureState,
    retention: RetentionPolicy,
    search_query: Seq<char>,
    exclusions: Seq<Seq<char>>,
    items: Seq<ItemView>,
    now: i128,
)
    requires
        valid_parts(retention, search_query, exclusions, items),
    ensures
        valid_workspace(
            WorkspaceView {
                revision,
                capture_state,
                retention,
                search_query,
                excluded: exclusions.to_set(),
                items: retained(items, retention, now),
                processed: Seq::empty(),
            },
        ),
{
    lemma_retained_valid(items, retention, now);
    vstd::seq_lib::seq_to_set_is_finite(exclusions);
    exclusions.lemma_cardinality_of_set();
}

/// Which items of a given pin a query shows.
pub open spec fn shows(query: Seq<char>, is_pinned: bool) -> spec_fn(ItemView) -> bool {
    |item: ItemView|
        item.is_pinned == is_pinned && (query.len() == 0 || matches_query(
            lowercase(item.text),
            lowercase(query),
        ))
}

proof fn lemma_shown_with_pin(w: WorkspaceView, k: int, is_pinned: bool)
    requires
        0 <= k <= w.items.len(),
    ensures
        shown_with_pin(w.items.take(k), shown(w), is_pinned) == w.items.take(k).filter(
            shows(w.search_query, is_pinned),
        ),
    decreases k,
{
    reveal(Seq::filter);
    if k > 0 {
        lemma_shown_with_pin(w, k - 1, is_pinned);
        assert(w.items.take(k).drop_last() =~= w.items.take(k - 1));
    }
}

/// The visible items are those that match the search, regardless of case, the pinned ones before
/// the others and both in the order of the history.
pub proof fn visible_items_match_with_pins_first(w: WorkspaceView)
    ensures
        visible(w.items, shown(w)) == w.items.filter(shows(w.search_query, true)) + w.items.filter(
            shows(w.search_query, false),
        ),
{
    lemma_shown_with_pin(w, w.items.len() as int, true);
    lemma_shown_with_pin(w, w.items.len() as int, false);
    assert(w.items.take(w.items.len() as int) =~= w.items);
}

/// An empty search shows every item, the pinned ones first.
pub proof fn empty_search_shows_every_item(w: WorkspaceView)
    requires
        w.search_query.len() == 0,
    ensures
        visible(w.items, shown(w)) == w.items.filter(pinned()) + w.items.filter(unpinned()),
{
    visible_items_match_with_pins_first(w);
    lemma_filter_same(w.items, shows(w.search_query, true), pinned());
    lemma_filter_same(w.items, shows(w.search_query, false), unpinned());
}

} // verus!
