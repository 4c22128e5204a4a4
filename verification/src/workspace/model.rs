//! The mathematical model of the clipboard workspace.
use crate::crypto::sha256_digest;
use crate::std_text::{lowercase, occurs_in};
use crate::text::{hex_text, is_lower_hex_char};
use crate::workspace::{
    CaptureState, RetentionPolicy, WorkspaceError, MAX_PROCESSED_COMMANDS, MAX_SEARCH_CHARACTERS,
    MAX_SOURCE_EXCLUSIONS, MAX_TEXT_BYTES, MAX_TEXT_CHARACTERS,
};
use vstd::prelude::*;
use vstd::utf8::*;

verus! {

/// Nanoseconds in a day.
pub const DAY_NANOS: i128 = 86_400_000_000_000;

#[verifier::ext_equal]
pub struct ItemView {
    pub item_id: u128,
    pub text: Seq<char>,
    pub content_sha256: Seq<char>,
    pub byte_size: usize,
    pub captured_at: i128,
    pub is_pinned: bool,
    pub source_fingerprint: Option<Seq<char>>,
}

#[verifier::ext_equal]
pub struct WorkspaceView {
    pub revision: u64,
    pub capture_state: CaptureState,
    pub retention: RetentionPolicy,
    pub search_query: Seq<char>,
    pub excluded: Set<Seq<char>>,
    pub items: Seq<ItemView>,
    pub processed: Seq<u128>,
}

pub enum ActionView {
    PauseCapture,
    ResumeCapture,
    SetSearch(Seq<char>),
    PinItem(u128),
    UnpinItem(u128),
    DeleteItem(u128),
    ClearUnpinned,
    SetRetention(RetentionPolicy),
    SetSourceExclusions(Seq<Seq<char>>),
    /// The item to take in; it is not pinned.
    IngestText(ItemView),
}

/// The workspace of a new process: empty, with capture paused.
pub open spec fn initial_workspace() -> WorkspaceView {
    WorkspaceView {
        revision: 0,
        capture_state: CaptureState::Paused,
        retention: RetentionPolicy { max_items: 250, max_age_days: 30, deduplicate: true },
        search_query: Seq::empty(),
        excluded: Set::empty(),
        items: Seq::empty(),
        processed: Seq::empty(),
    }
}

/// The lower-case hexadecimal SHA-256 of a text's UTF-8 bytes.
pub open spec fn content_hash(text: Seq<char>) -> Seq<char> {
    hex_text(sha256_digest(encode_utf8(text)))
}

/// `sha256:` and 64 lower-case hexadecimal digits.
pub open spec fn valid_fingerprint(value: Seq<char>) -> bool {
    &&& value.len() == 71
    &&& value.subrange(0, 7) == "sha256:"@
    &&& forall|i: int| 7 <= i < 71 ==> is_lower_hex_char(#[trigger] value[i])
}

pub open spec fn valid_retention(policy: RetentionPolicy) -> bool {
    1 <= policy.max_items <= 10_000 && 1 <= policy.max_age_days <= 365
}

/// A text that the history takes, with its size in bytes.
pub open spec fn valid_content(text: Seq<char>, byte_size: usize) -> bool {
    &&& 1 <= text.len() <= MAX_TEXT_CHARACTERS
    &&& encode_utf8(text).len() <= MAX_TEXT_BYTES
    &&& byte_size == encode_utf8(text).len()
}

/// Whether an item has outlived the policy. One captured in the future has not.
pub open spec fn expired(item: ItemView, policy: RetentionPolicy, now: i128) -> bool {
    now - item.captured_at > policy.max_age_days * DAY_NANOS
}

pub open spec fn not_expired(policy: RetentionPolicy, now: i128) -> spec_fn(ItemView) -> bool {
    |item: ItemView| item.is_pinned || !expired(item, policy, now)
}

pub open spec fn pinned() -> spec_fn(ItemView) -> bool {
    |item: ItemView| item.is_pinned
}

pub open spec fn unpinned() -> spec_fn(ItemView) -> bool {
    |item: ItemView| !item.is_pinned
}

pub open spec fn other_than(item_id: u128) -> spec_fn(ItemView) -> bool {
    |item: ItemView| item.item_id != item_id
}

/// How many items are not pinned.
pub open spec fn unpinned_count(items: Seq<ItemView>) -> nat {
    items.filter(unpinned()).len()
}

/// The items without those unpinned ones that `max` unpinned ones precede.
pub open spec fn first_unpinned(items: Seq<ItemView>, max: nat) -> Seq<ItemView>
    decreases items.len(),
{
    if items.len() == 0 {
        Seq::empty()
    } else {
        let before = items.drop_last();
        if items.last().is_pinned || unpinned_count(before) < max {
            first_unpinned(before, max).push(items.last())
        } else {
            first_unpinned(before, max)
        }
    }
}

/// What retention leaves of the history: pinned items, and of the others those that have not
/// expired, as many of the newest as the policy allows.
pub open spec fn retained(items: Seq<ItemView>, policy: RetentionPolicy, now: i128) -> Seq<
    ItemView,
> {
    first_unpinned(items.filter(not_expired(policy, now)), policy.max_items as nat)
}

/// The first index at which the predicate holds, the length where it holds nowhere.
pub open spec fn first_index(items: Seq<ItemView>, pred: spec_fn(ItemView) -> bool) -> int
    decreases items.len(),
{
    if items.len() == 0 {
        0
    } else if pred(items[0]) {
        0
    } else {
        1 + first_index(items.drop_first(), pred)
    }
}

pub open spec fn has_id(item_id: u128) -> spec_fn(ItemView) -> bool {
    |item: ItemView| item.item_id == item_id
}

pub open spec fn has_hash(hash: Seq<char>) -> spec_fn(ItemView) -> bool {
    |item: ItemView| item.content_sha256 == hash
}

/// The history with the first item of that identifier pinned or unpinned, `None` where there is
/// no such item.
pub open spec fn with_pin(items: Seq<ItemView>, item_id: u128, is_pinned: bool) -> Option<
    Seq<ItemView>,
> {
    let i = first_index(items, has_id(item_id));
    if i < items.len() {
        Some(items.update(i, ItemView { is_pinned, ..items[i] }))
    } else {
        None
    }
}

/// The history with an item put in front. Where the policy removes duplicates and the content is
/// already there, the item that holds it moves to the front with the new time and source.
pub open spec fn with_item(items: Seq<ItemView>, policy: RetentionPolicy, item: ItemView) -> Seq<
    ItemView,
> {
    let i = first_index(items, has_hash(item.content_sha256));
    if policy.deduplicate && i < items.len() {
        let moved = ItemView {
            captured_at: item.captured_at,
            source_fingerprint: item.source_fingerprint,
            ..items[i]
        };
        items.remove(i).insert(0, moved)
    } else {
        items.insert(0, item)
    }
}

/// Why an item is not taken in, if it is not.
pub open spec fn ingest_error(w: WorkspaceView, item: ItemView) -> Option<WorkspaceError> {
    if w.capture_state != CaptureState::Active {
        Some(WorkspaceError::CapturePaused)
    } else if !valid_content(item.text, item.byte_size) {
        Some(WorkspaceError::InvalidContentSize)
    } else if item.content_sha256 != content_hash(item.text) {
        Some(WorkspaceError::InvalidContentHash)
    } else if item.source_fingerprint matches Some(value) && !valid_fingerprint(value) {
        Some(WorkspaceError::InvalidSourceFingerprint)
    } else if item.source_fingerprint matches Some(value) && w.excluded.contains(value) {
        Some(WorkspaceError::ExcludedSource)
    } else {
        None
    }
}

/// The workspace after an item was offered.
pub open spec fn ingest_outcome(w: WorkspaceView, item: ItemView, now: i128) -> Result<
    WorkspaceView,
    WorkspaceError,
> {
    match ingest_error(w, item) {
        Some(error) => Err(error),
        None => Ok(
            WorkspaceView {
                items: retained(with_item(w.items, w.retention, item), w.retention, now),
                ..w
            },
        ),
    }
}

/// Fingerprints that may be excluded together.
pub open spec fn valid_exclusions(fingerprints: Seq<Seq<char>>) -> bool {
    &&& fingerprints.len() <= MAX_SOURCE_EXCLUSIONS
    &&& forall|i: int| 0 <= i < fingerprints.len() ==> valid_fingerprint(#[trigger] fingerprints[i])
}

/// The workspace after an action, apart from what every command records.
pub open spec fn act(w: WorkspaceView, action: ActionView, now: i128) -> Result<
    WorkspaceView,
    WorkspaceError,
> {
    match action {
        ActionView::PauseCapture => Ok(WorkspaceView { capture_state: CaptureState::Paused, ..w }),
        ActionView::ResumeCapture => Ok(WorkspaceView { capture_state: CaptureState::Active, ..w }),
        ActionView::SetSearch(query) => if query.len() > MAX_SEARCH_CHARACTERS {
            Err(WorkspaceError::InvalidSearch)
        } else {
            Ok(WorkspaceView { search_query: query, ..w })
        },
        ActionView::PinItem(item_id) => match with_pin(w.items, item_id, true) {
            Some(items) => Ok(WorkspaceView { items, ..w }),
            None => Err(WorkspaceError::ItemNotFound),
        },
        ActionView::UnpinItem(item_id) => match with_pin(w.items, item_id, false) {
            Some(items) => Ok(WorkspaceView { items: retained(items, w.retention, now), ..w }),
            None => Err(WorkspaceError::ItemNotFound),
        },
        ActionView::DeleteItem(item_id) => if first_index(w.items, has_id(item_id))
            == w.items.len() {
            Err(WorkspaceError::ItemNotFound)
        } else {
            Ok(WorkspaceView { items: w.items.filter(other_than(item_id)), ..w })
        },
        ActionView::ClearUnpinned => Ok(WorkspaceView { items: w.items.filter(pinned()), ..w }),
        ActionView::SetRetention(policy) => if !valid_retention(policy) {
            Err(WorkspaceError::InvalidRetention)
        } else {
            Ok(
                WorkspaceView {
                    retention: policy,
                    items: retained(w.items, policy, now),
                    ..w
                },
            )
        },
        ActionView::SetSourceExclusions(fingerprints) => if !valid_exclusions(fingerprints) {
            Err(WorkspaceError::InvalidSourceFingerprint)
        } else {
            Ok(WorkspaceView { excluded: fingerprints.to_set(), ..w })
        },
        ActionView::IngestText(item) => ingest_outcome(w, item, now),
    }
}

/// The commands remembered after one more: the last of them, up to the limit.
pub open spec fn remember(processed: Seq<u128>, command_id: u128) -> Seq<u128> {
    let all = processed.push(command_id);
    if all.len() > MAX_PROCESSED_COMMANDS {
        all.drop_first()
    } else {
        all
    }
}

/// The workspace after a command: a new revision, with the command remembered.
pub open spec fn apply_outcome(
    w: WorkspaceView,
    command_id: u128,
    expected_revision: u64,
    action: ActionView,
    now: i128,
) -> Result<WorkspaceView, WorkspaceError> {
    if w.processed.contains(command_id) {
        Err(WorkspaceError::DuplicateCommand)
    } else if expected_revision != w.revision {
        Err(WorkspaceError::RevisionConflict)
    } else {
        match act(w, action, now) {
            Err(error) => Err(error),
            Ok(after) => Ok(
                WorkspaceView {
                    revision: if w.revision == u64::MAX {
                        u64::MAX
                    } else {
                        (w.revision + 1) as u64
                    },
                    processed: remember(w.processed, command_id),
                    ..after
                },
            ),
        }
    }
}

/// Whether a text matches a query, both in lower case. The empty query matches every text.
pub open spec fn matches_query(lower_text: Seq<char>, lower_query: Seq<char>) -> bool {
    lower_query.len() == 0 || occurs_in(lower_query, lower_text)
}

/// Which items the search query shows.
pub open spec fn shown(w: WorkspaceView) -> Seq<bool> {
    Seq::new(
        w.items.len(),
        |i: int|
            w.search_query.len() == 0 || matches_query(
                lowercase(w.items[i].text),
                lowercase(w.search_query),
            ),
    )
}

/// The items that are shown and whose pin is as given, in their order.
pub open spec fn shown_with_pin(items: Seq<ItemView>, shown: Seq<bool>, is_pinned: bool) -> Seq<
    ItemView,
>
    decreases items.len(),
{
    if items.len() == 0 {
        Seq::empty()
    } else {
        let before = shown_with_pin(items.drop_last(), shown, is_pinned);
        if shown[items.len() - 1] && items.last().is_pinned == is_pinned {
            before.push(items.last())
        } else {
            before
        }
    }
}

/// The items that are shown, the pinned ones first.
pub open spec fn visible(items: Seq<ItemView>, shown: Seq<bool>) -> Seq<ItemView> {
    shown_with_pin(items, shown, true) + shown_with_pin(items, shown, false)
}

/// Whether stored parts make a workspace that the reducer could have reached.
pub open spec fn valid_parts(
    retention: RetentionPolicy,
    search_query: Seq<char>,
    exclusions: Seq<Seq<char>>,
    items: Seq<ItemView>,
) -> bool {
    &&& valid_retention(retention)
    &&& search_query.len() <= MAX_SEARCH_CHARACTERS
    &&& valid_exclusions(exclusions)
    &&& valid_items(items)
}

/// An item that the history may hold.
pub open spec fn valid_item(item: ItemView) -> bool {
    &&& valid_content(item.text, item.byte_size)
    &&& item.content_sha256 == content_hash(item.text)
    &&& item.source_fingerprint matches Some(value) ==> valid_fingerprint(value)
}

pub open spec fn valid_items(items: Seq<ItemView>) -> bool {
    forall|i: int| 0 <= i < items.len() ==> valid_item(#[trigger] items[i])
}

/// A workspace that the reducer can reach.
pub open spec fn valid_workspace(w: WorkspaceView) -> bool {
    &&& valid_retention(w.retention)
    &&& w.search_query.len() <= MAX_SEARCH_CHARACTERS
    &&& w.excluded.finite()
    &&& w.excluded.len() <= MAX_SOURCE_EXCLUSIONS
    &&& forall|value: Seq<char>| #[trigger] w.excluded.contains(value) ==> valid_fingerprint(value)
    &&& valid_items(w.items)
    &&& unpinned_count(w.items) <= w.retention.max_items
    &&& w.processed.len() <= MAX_PROCESSED_COMMANDS
}

} // verus!
