//! Pure clipboard-workspace reducer shared by the native window and tray shell.
//!
//! Clipboard text is local user content. This module never logs, persists, transmits, or formats
//! content into errors.
pub mod command_laws;
pub mod laws;
pub mod model;

use crate::clock::{calendar_showed, system_nanos};
use crate::crypto::sha256;
use crate::std_text::{contains, lowercase, to_lowercase};
use crate::text::{
    chars_of, comes_before, is_lower_hex_char, lemma_text_before_transitive, optional_text,
    text_before, texts, to_hex,
};
use crate::workspace::model::{
    act, apply_outcome, content_hash, first_index, first_unpinned, has_hash, has_id, ingest_error,
    ingest_outcome, initial_workspace, matches_query, not_expired, other_than, pinned, remember,
    retained, shown, shown_with_pin, unpinned_count, valid_content, valid_exclusions,
    valid_fingerprint, valid_item, valid_parts, valid_retention, visible, with_item, with_pin,
    ActionView, ItemView, WorkspaceView, DAY_NANOS,
};
use std::collections::VecDeque;
use vstd::prelude::*;
use vstd::std_specs::vecdeque::*;
use vstd::string::*;
use vstd::utf8::*;

verus! {

pub const DESKTOP_FEATURE_IDS: [&'static str; 12] = [
    "clipboard.capture.pause",
    "clipboard.clear_unpinned",
    "clipboard.deduplicate",
    "clipboard.delete",
    "clipboard.history.text",
    "clipboard.pin",
    "clipboard.retention",
    "clipboard.search",
    "desktop.tray.lifecycle",
    "desktop.window.close_to_tray",
    "desktop.window.regular",
    "privacy.source_exclusions",
];

pub const MAX_TEXT_CHARACTERS: usize = 65_536;

pub const MAX_TEXT_BYTES: usize = 1_048_576;

pub const MAX_SEARCH_CHARACTERS: usize = 256;

pub const MAX_SOURCE_EXCLUSIONS: usize = 256;

pub const MAX_PROCESSED_COMMANDS: usize = 1_024;

/// A moment of wall-clock time.
#[derive(Clone, Copy, Debug, Eq, PartialEq, Structural)]
pub struct Timestamp {
    /// Nanoseconds after the Unix epoch, negative before it.
    pub unix_nanos: i128,
}

impl Timestamp {
    /// What the machine's clock shows. Which moment that is rests with the machine.
    pub fn now() -> (res: Timestamp)
        ensures
            calendar_showed(res.unix_nanos),
    {
        Timestamp { unix_nanos: system_nanos() }
    }
}

#[derive(Clone, Copy, Debug, Eq, PartialEq, Structural)]
pub enum CaptureState {
    Active,
    Paused,
}

#[derive(Clone, Copy, Debug, Eq, PartialEq, Structural)]
pub struct RetentionPolicy {
    pub max_items: usize,
    pub max_age_days: u16,
    pub deduplicate: bool,
}

impl Default for RetentionPolicy {
    fn default() -> (res: Self)
        ensures
            res == (RetentionPolicy { max_items: 250, max_age_days: 30, deduplicate: true }),
    {
        RetentionPolicy { max_items: 250, max_age_days: 30, deduplicate: true }
    }
}

impl RetentionPolicy {
    pub fn validate(self) -> (res: Result<Self, WorkspaceError>)
        ensures
            res == (if valid_retention(self) {
                Ok(self)
            } else {
                Err(WorkspaceError::InvalidRetention)
            }),
            res is Ok <==> 1 <= self.max_items <= 10_000 && 1 <= self.max_age_days <= 365,
    {
        if self.max_items < 1 || self.max_items > 10_000 || self.max_age_days < 1
            || self.max_age_days > 365 {
            Err(WorkspaceError::InvalidRetention)
        } else {
            Ok(self)
        }
    }

    /// How long an unpinned item is kept, in nanoseconds.
    pub fn max_age_nanos(self) -> (res: i128)
        ensures
            res == self.max_age_days * DAY_NANOS,
            res == self.max_age_days * 86_400_000_000_000,
    {
        self.max_age_days as i128 * DAY_NANOS
    }
}

#[derive(Debug, Eq, PartialEq)]
pub struct ClipboardItem {
    pub item_id: u128,
    pub text: String,
    pub content_sha256: String,
    pub byte_size: usize,
    pub captured_at: Timestamp,
    pub is_pinned: bool,
    pub source_fingerprint: Option<String>,
}

impl View for ClipboardItem {
    type V = ItemView;

    open spec fn view(&self) -> ItemView {
        ItemView {
            item_id: self.item_id,
            text: self.text@,
            content_sha256: self.content_sha256@,
            byte_size: self.byte_size,
            captured_at: self.captured_at.unix_nanos,
            is_pinned: self.is_pinned,
            source_fingerprint: optional_text(self.source_fingerprint),
        }
    }
}

impl Clone for ClipboardItem {
    fn clone(&self) -> (res: Self)
        ensures
            res@ == self@,
    {
        ClipboardItem {
            item_id: self.item_id,
            text: self.text.clone(),
            content_sha256: self.content_sha256.clone(),
            byte_size: self.byte_size,
            captured_at: self.captured_at,
            is_pinned: self.is_pinned,
            source_fingerprint: match &self.source_fingerprint {
                Some(value) => Some(value.clone()),
                None => None,
            },
        }
    }
}

#[derive(Debug, Eq, PartialEq)]
pub enum WorkspaceAction {
    PauseCapture,
    ResumeCapture,
    SetSearch(String),
    PinItem(u128),
    UnpinItem(u128),
    DeleteItem(u128),
    ClearUnpinned,
    SetRetention(RetentionPolicy),
    SetSourceExclusions(Vec<String>),
    IngestText {
        item_id: u128,
        text: String,
        content_sha256: String,
        byte_size: usize,
        captured_at: Timestamp,
        source_fingerprint: Option<String>,
    },
}

impl View for WorkspaceAction {
    type V = ActionView;

    open spec fn view(&self) -> ActionView {
        match *self {
            WorkspaceAction::PauseCapture => ActionView::PauseCapture,
            WorkspaceAction::ResumeCapture => ActionView::ResumeCapture,
            WorkspaceAction::SetSearch(query) => ActionView::SetSearch(query@),
            WorkspaceAction::PinItem(item_id) => ActionView::PinItem(item_id),
            WorkspaceAction::UnpinItem(item_id) => ActionView::UnpinItem(item_id),
            WorkspaceAction::DeleteItem(item_id) => ActionView::DeleteItem(item_id),
            WorkspaceAction::ClearUnpinned => ActionView::ClearUnpinned,
            WorkspaceAction::SetRetention(policy) => ActionView::SetRetention(policy),
            WorkspaceAction::SetSourceExclusions(fingerprints) => ActionView::SetSourceExclusions(
                texts(fingerprints@),
            ),
            WorkspaceAction::IngestText {
                item_id,
                text,
                content_sha256,
                byte_size,
                captured_at,
                source_fingerprint,
            } => ActionView::IngestText(
                ItemView {
                    item_id,
                    text: text@,
                    content_sha256: content_sha256@,
                    byte_size,
                    captured_at: captured_at.unix_nanos,
                    is_pinned: false,
                    source_fingerprint: optional_text(source_fingerprint),
                },
            ),
        }
    }
}

#[derive(Clone, Copy, Debug, Eq, PartialEq, Structural)]
pub enum WorkspaceError {
    CapturePaused,
    DuplicateCommand,
    ExcludedSource,
    InvalidContentHash,
    InvalidContentSize,
    InvalidRetention,
    InvalidSearch,
    /// A stored workspace breaks a rule that every reachable one keeps.
    InvalidSnapshot,
    InvalidSourceFingerprint,
    ItemNotFound,
    RevisionConflict,
}

/// The sentence shown for an error.
pub open spec fn workspace_error_text(error: WorkspaceError) -> Seq<char> {
    match error {
        WorkspaceError::CapturePaused => "clipboard capture is paused"@,
        WorkspaceError::DuplicateCommand => "the command was already applied"@,
        WorkspaceError::ExcludedSource => "the clipboard source is excluded"@,
        WorkspaceError::InvalidContentHash => "clipboard content metadata is invalid"@,
        WorkspaceError::InvalidContentSize =>
            "clipboard content is outside the supported bounds"@,
        WorkspaceError::InvalidRetention => "the retention policy is outside the supported bounds"@,
        WorkspaceError::InvalidSearch => "the search query is outside the supported bounds"@,
        WorkspaceError::InvalidSnapshot => "the stored workspace is invalid"@,
        WorkspaceError::InvalidSourceFingerprint => "a source fingerprint is malformed"@,
        WorkspaceError::ItemNotFound => "the clipboard item does not exist"@,
        WorkspaceError::RevisionConflict => "the workspace revision changed"@,
    }
}

impl WorkspaceError {
    pub fn message(&self) -> (res: &'static str)
        ensures
            res@ == workspace_error_text(*self),
    {
        match self {
            WorkspaceError::CapturePaused => "clipboard capture is paused",
            WorkspaceError::DuplicateCommand => "the command was already applied",
            WorkspaceError::ExcludedSource => "the clipboard source is excluded",
            WorkspaceError::InvalidContentHash => "clipboard content metadata is invalid",
            WorkspaceError::InvalidContentSize =>
                "clipboard content is outside the supported bounds",
            WorkspaceError::InvalidRetention =>
                "the retention policy is outside the supported bounds",
            WorkspaceError::InvalidSearch => "the search query is outside the supported bounds",
            WorkspaceError::InvalidSnapshot => "the stored workspace is invalid",
            WorkspaceError::InvalidSourceFingerprint => "a source fingerprint is malformed",
            WorkspaceError::ItemNotFound => "the clipboard item does not exist",
            WorkspaceError::RevisionConflict => "the workspace revision changed",
        }
    }
}

/// The items of a vector.
pub open spec fn items_view(items: Seq<ClipboardItem>) -> Seq<ItemView> {
    Seq::new(items.len(), |i: int| items[i]@)
}

/// The items that a vector of references refers to.
pub open spec fn item_refs(items: Seq<&ClipboardItem>) -> Seq<ItemView> {
    Seq::new(items.len(), |i: int| items[i]@)
}

/// Whether a text matches a query, both in lower case.
pub fn query_matches(lower_text: &str, lower_query: &str) -> (res: bool)
    ensures
        res == matches_query(lower_text@, lower_query@),
        res <==> exists|k: int|
            0 <= k <= lower_text@.len() - lower_query@.len() && #[trigger] lower_text@.subrange(
                k,
                k + lower_query@.len(),
            ) == lower_query@,
{
    proof {
        if lower_query@.len() == 0 {
            assert(lower_text@.subrange(0, 0int + lower_query@.len()) =~= lower_query@);
        }
    }
    lower_query.unicode_len() == 0 || contains(lower_text, lower_query)
}

/// Whether the history may hold an item.
pub fn is_valid_item(item: &ClipboardItem) -> (res: bool)
    ensures
        res == valid_item(item@),
{
    if !is_valid_content(item.text.as_str(), item.byte_size) || item.content_sha256
        != content_sha256_hex(item.text.as_str()) {
        return false;
    }
    match &item.source_fingerprint {
        Some(value) => is_source_fingerprint(value.as_str()),
        None => true,
    }
}

/// The hash under which a text's history item is known.
pub fn content_sha256_hex(text: &str) -> (res: String)
    ensures
        res@ == content_hash(text@),
        res@.len() == 64,
{
    let digest = sha256(text.as_bytes());
    to_hex(&digest)
}

/// Whether a text identifies a clipboard source.
pub fn is_source_fingerprint(value: &str) -> (res: bool)
    ensures
        res == valid_fingerprint(value@),
{
    let chars = chars_of(value);
    if chars.len() != 71 {
        return false;
    }
    proof {
        reveal_strlit("sha256:");
    }
    if !(chars[0] == 's' && chars[1] == 'h' && chars[2] == 'a' && chars[3] == '2' && chars[4] == '5'
        && chars[5] == '6' && chars[6] == ':') {
        proof {
            if value@.subrange(0, 7) == "sha256:"@ {
                assert(value@.subrange(0, 7)[0] == 's');
                assert(value@.subrange(0, 7)[1] == 'h');
                assert(value@.subrange(0, 7)[2] == 'a');
                assert(value@.subrange(0, 7)[3] == '2');
                assert(value@.subrange(0, 7)[4] == '5');
                assert(value@.subrange(0, 7)[5] == '6');
                assert(value@.subrange(0, 7)[6] == ':');
            }
        }
        return false;
    }
    assert(value@.subrange(0, 7) =~= "sha256:"@);
    let mut i: usize = 7;
    while i < 71
        invariant
            7 <= i <= 71,
            chars@ == value@,
            value@.len() == 71,
            forall|j: int|
                7 <= j < i ==> is_lower_hex_char(#[trigger] value@[j]),
        decreases 71 - i,
    {
        let c = chars[i];
        if !(('0' <= c && c <= '9') || ('a' <= c && c <= 'f')) {
            assert(!is_lower_hex_char(value@[i as int]));
            return false;
        }
        i += 1;
    }
    true
}

/// Which items a pass over the history keeps.
enum KeepRule {
    NotExpired(RetentionPolicy, Timestamp),
    OtherThan(u128),
    Pinned,
}

impl KeepRule {
    spec fn keeps(self) -> spec_fn(ItemView) -> bool {
        match self {
            KeepRule::NotExpired(policy, now) => not_expired(policy, now.unix_nanos),
            KeepRule::OtherThan(item_id) => other_than(item_id),
            KeepRule::Pinned => pinned(),
        }
    }

    fn check(&self, item: &ClipboardItem) -> (res: bool)
        ensures
            res == (self.keeps())(item@),
    {
        match self {
            KeepRule::NotExpired(policy, now) => {
                if item.is_pinned || item.captured_at.unix_nanos > now.unix_nanos {
                    return true;
                }
                match now.unix_nanos.checked_sub(item.captured_at.unix_nanos) {
                    Some(age) => age <= policy.max_age_nanos(),
                    None => false,
                }
            },
            KeepRule::OtherThan(item_id) => item.item_id != *item_id,
            KeepRule::Pinned => item.is_pinned,
        }
    }
}

/// The items that a rule keeps, in their order.
fn keep_items(items: Vec<ClipboardItem>, rule: KeepRule) -> (res: Vec<ClipboardItem>)
    ensures
        items_view(res@) == items_view(items@).filter(rule.keeps()),
{
    let ghost all = items_view(items@);
    let mut kept: Vec<ClipboardItem> = Vec::new();
    for item in it: items
        invariant
            all == items_view(it.seq()),
            items_view(kept@) == all.take(it.index() as int).filter(rule.keeps()),
    {
        proof {
            reveal(Seq::filter);
            let next = all.take(it.index() + 1);
            assert(next.drop_last() =~= all.take(it.index() as int));
            assert(next.last() == item@);
        }
        if rule.check(&item) {
            let ghost before = kept@;
            kept.push(item);
            assert(items_view(kept@) =~= items_view(before).push(item@));
        }
    }
    assert(all.take(all.len() as int) =~= all);
    kept
}

/// The items without the unpinned ones beyond the first `max` of them.
fn cap_items(items: Vec<ClipboardItem>, max: usize) -> (res: Vec<ClipboardItem>)
    ensures
        items_view(res@) == first_unpinned(items_view(items@), max as nat),
{
    let ghost all = items_view(items@);
    let mut kept: Vec<ClipboardItem> = Vec::new();
    let mut unpinned_seen: usize = 0;
    for item in it: items
        invariant
            all == items_view(it.seq()),
            items_view(kept@) == first_unpinned(all.take(it.index() as int), max as nat),
            unpinned_seen <= max,
            unpinned_seen as nat == if unpinned_count(all.take(it.index() as int)) < max {
                unpinned_count(all.take(it.index() as int))
            } else {
                max as nat
            },
    {
        proof {
            reveal(Seq::filter);
            let next = all.take(it.index() + 1);
            assert(next.drop_last() =~= all.take(it.index() as int));
            assert(next.last() == item@);
        }
        let ghost before = kept@;
        if item.is_pinned {
            kept.push(item);
            assert(items_view(kept@) =~= items_view(before).push(item@));
        } else if unpinned_seen < max {
            kept.push(item);
            unpinned_seen += 1;
            assert(items_view(kept@) =~= items_view(before).push(item@));
        }
    }
    assert(all.take(all.len() as int) =~= all);
    kept
}

proof fn lemma_first_index(items: Seq<ItemView>, pred: spec_fn(ItemView) -> bool, i: int)
    requires
        0 <= i <= items.len(),
        forall|j: int| 0 <= j < i ==> !pred(#[trigger] items[j]),
        i < items.len() ==> pred(items[i]),
    ensures
        first_index(items, pred) == i,
    decreases items.len(),
{
    if items.len() > 0 && i > 0 {
        assert(!pred(items[0]));
        assert forall|j: int| 0 <= j < i - 1 implies !pred(#[trigger] items.drop_first()[j]) by {
            assert(!pred(items[j + 1]));
        }
        lemma_first_index(items.drop_first(), pred, i - 1);
    }
}

/// Where the first item of that identifier is, the length where there is none.
fn find_id(items: &Vec<ClipboardItem>, item_id: u128) -> (res: usize)
    ensures
        res == first_index(items_view(items@), has_id(item_id)),
        res <= items@.len(),
{
    let mut i: usize = 0;
    while i < items.len()
        invariant
            i <= items@.len(),
            forall|j: int| 0 <= j < i ==> items@[j].item_id != item_id,
        decreases items@.len() - i,
    {
        if items[i].item_id == item_id {
            proof {
                lemma_first_index(items_view(items@), has_id(item_id), i as int);
            }
            return i;
        }
        i += 1;
    }
    proof {
        lemma_first_index(items_view(items@), has_id(item_id), i as int);
    }
    i
}

/// Where the first item of that content hash is, the length where there is none.
fn find_hash(items: &Vec<ClipboardItem>, hash: &String) -> (res: usize)
    ensures
        res == first_index(items_view(items@), has_hash(hash@)),
        res <= items@.len(),
{
    let mut i: usize = 0;
    while i < items.len()
        invariant
            i <= items@.len(),
            forall|j: int| 0 <= j < i ==> (#[trigger] items@[j]).content_sha256@ != hash@,
        decreases items@.len() - i,
    {
        if items[i].content_sha256 == *hash {
            proof {
                lemma_first_index(items_view(items@), has_hash(hash@), i as int);
            }
            return i;
        }
        i += 1;
    }
    proof {
        lemma_first_index(items_view(items@), has_hash(hash@), i as int);
    }
    i
}

/// Each text comes before all that follow it.
pub open spec fn ascending(values: Seq<Seq<char>>) -> bool {
    forall|i: int, j: int|
        0 <= i < j < values.len() ==> text_before(#[trigger] values[i], #[trigger] values[j])
}

proof fn lemma_text_before_total(a: Seq<char>, b: Seq<char>)
    ensures
        text_before(a, b) || text_before(b, a) || a == b,
    decreases a.len(),
{
    if a.len() > 0 && b.len() > 0 && a[0] == b[0] {
        lemma_text_before_total(a.drop_first(), b.drop_first());
        if a.drop_first() == b.drop_first() {
            assert(a =~= seq![a[0]] + a.drop_first());
            assert(b =~= seq![b[0]] + b.drop_first());
        }
    } else if a.len() == 0 && b.len() == 0 {
        assert(a =~= b);
    }
}

/// Add a text to an ascending vector that holds each text once.
fn insert_text(values: &mut Vec<String>, value: String)
    requires
        ascending(texts(old(values)@)),
    ensures
        ascending(texts(final(values)@)),
        texts(final(values)@).to_set() == texts(old(values)@).to_set().insert(value@),
{
    let ghost before = texts(values@);
    let mut i: usize = 0;
    while i < values.len() && comes_before(values[i].as_str(), value.as_str())
        invariant
            i <= values@.len(),
            before == texts(values@),
            values@ == old(values)@,
            forall|j: int| 0 <= j < i ==> text_before(#[trigger] before[j], value@),
        decreases values@.len() - i,
    {
        i += 1;
    }
    if i < values.len() && values[i] == value {
        proof {
            assert(before[i as int] == value@);
            assert(before.to_set().insert(value@) =~= before.to_set());
        }
        return;
    }
    proof {
        if i < before.len() {
            lemma_text_before_total(before[i as int], value@);
        }
        assert forall|j: int| i <= j < before.len() implies text_before(
            value@,
            #[trigger] before[j],
        ) by {
            if j > i {
                lemma_text_before_transitive(value@, before[i as int], before[j]);
            }
        }
    }
    let ghost added = value@;
    values.insert(i, value);
    proof {
        let after = texts(values@);
        assert(after =~= before.insert(i as int, added));
        assert(after[i as int] == added);
        assert forall|t: Seq<char>| after.to_set().contains(t) == before.to_set().insert(
            added,
        ).contains(t) by {
            if before.contains(t) {
                let j = choose|j: int| 0 <= j < before.len() && before[j] == t;
                assert(after[if j < i { j } else { j + 1 }] == t);
            }
            if after.contains(t) {
                let j = choose|j: int| 0 <= j < after.len() && after[j] == t;
                if j < i {
                    assert(before[j] == t);
                } else if j > i {
                    assert(before[j - 1] == t);
                }
            }
        }
        assert(after.to_set() =~= before.to_set().insert(added));
    }
}

/// The texts in ascending order, each once.
pub fn sorted_texts(values: Vec<String>) -> (res: Vec<String>)
    ensures
        ascending(texts(res@)),
        texts(res@).to_set() == texts(values@).to_set(),
{
    let ghost all = texts(values@);
    let mut sorted: Vec<String> = Vec::new();
    assert(texts(sorted@).to_set() =~= all.take(0).to_set());
    for value in it: values
        invariant
            all == texts(it.seq()),
            ascending(texts(sorted@)),
            texts(sorted@).to_set() == all.take(it.index() as int).to_set(),
    {
        proof {
            let done = all.take(it.index() as int);
            let next = all.take(it.index() + 1);
            assert(next =~= done.push(value@));
            done.lemma_push_to_set_commute(value@);
        }
        insert_text(&mut sorted, value);
    }
    assert(all.take(all.len() as int) =~= all);
    sorted
}

/// A copy of the texts.
pub fn clone_texts(values: &Vec<String>) -> (res: Vec<String>)
    ensures
        texts(res@) == texts(values@),
{
    let mut res: Vec<String> = Vec::new();
    let mut i: usize = 0;
    while i < values.len()
        invariant
            i <= values@.len(),
            res@.len() == i,
            forall|j: int| 0 <= j < i ==> (#[trigger] res@[j])@ == values@[j]@,
        decreases values@.len() - i,
    {
        res.push(values[i].clone());
        i += 1;
    }
    assert(texts(res@) =~= texts(values@));
    res
}

/// A copy of the items.
fn clone_items(items: &Vec<ClipboardItem>) -> (res: Vec<ClipboardItem>)
    ensures
        items_view(res@) == items_view(items@),
{
    let mut res: Vec<ClipboardItem> = Vec::new();
    let mut i: usize = 0;
    while i < items.len()
        invariant
            i <= items@.len(),
            res@.len() == i,
            forall|j: int| 0 <= j < i ==> (#[trigger] res@[j])@ == items@[j]@,
        decreases items@.len() - i,
    {
        res.push(items[i].clone());
        i += 1;
    }
    assert(items_view(res@) =~= items_view(items@));
    res
}

/// Whether the vector holds the text.
fn contains_text(values: &Vec<String>, value: &String) -> (res: bool)
    ensures
        res == texts(values@).to_set().contains(value@),
{
    let mut i: usize = 0;
    while i < values.len()
        invariant
            i <= values@.len(),
            forall|j: int| 0 <= j < i ==> (#[trigger] values@[j])@ != value@,
        decreases values@.len() - i,
    {
        if values[i] == *value {
            assert(texts(values@)[i as int] == value@);
            return true;
        }
        i += 1;
    }
    false
}

/// Whether the fingerprints may be excluded together.
pub fn are_valid_exclusions(fingerprints: &Vec<String>) -> (res: bool)
    ensures
        res == valid_exclusions(texts(fingerprints@)),
{
    if fingerprints.len() > MAX_SOURCE_EXCLUSIONS {
        return false;
    }
    let mut i: usize = 0;
    while i < fingerprints.len()
        invariant
            i <= fingerprints@.len() <= MAX_SOURCE_EXCLUSIONS,
            forall|j: int| 0 <= j < i ==> valid_fingerprint(#[trigger] texts(fingerprints@)[j]),
        decreases fingerprints@.len() - i,
    {
        if !is_source_fingerprint(fingerprints[i].as_str()) {
            assert(!valid_fingerprint(texts(fingerprints@)[i as int]));
            return false;
        }
        i += 1;
    }
    true
}

/// The fingerprints of the sources that nothing is taken from.
#[derive(Debug, Eq, PartialEq)]
pub struct SourceExclusions {
    values: Vec<String>,
}

impl View for SourceExclusions {
    type V = Set<Seq<char>>;

    closed spec fn view(&self) -> Set<Seq<char>> {
        texts(self.values@).to_set()
    }
}

impl Clone for SourceExclusions {
    fn clone(&self) -> (res: Self)
        ensures
            res@ == self@,
    {
        proof {
            use_type_invariant(self);
        }
        SourceExclusions { values: clone_texts(&self.values) }
    }
}

impl SourceExclusions {
    #[verifier::type_invariant]
    spec fn listed_once_in_order(self) -> bool {
        ascending(texts(self.values@))
    }

    /// The set of the texts.
    pub fn from_texts(values: Vec<String>) -> (res: Self)
        ensures
            res@ == texts(values@).to_set(),
    {
        SourceExclusions { values: sorted_texts(values) }
    }

    pub fn contains(&self, value: &String) -> (res: bool)
        ensures
            res == self@.contains(value@),
    {
        contains_text(&self.values, value)
    }

    /// The fingerprints in ascending order, each once.
    pub fn as_vec(&self) -> (res: &Vec<String>)
        ensures
            ascending(texts(res@)),
            texts(res@).to_set() == self@,
    {
        proof {
            use_type_invariant(self);
        }
        &self.values
    }
}

#[derive(Debug, Eq, PartialEq)]
pub struct ClipboardWorkspace {
    revision: u64,
    capture_state: CaptureState,
    retention: RetentionPolicy,
    search_query: String,
    excluded_source_fingerprints: SourceExclusions,
    items: Vec<ClipboardItem>,
    processed_commands: VecDeque<u128>,
}

impl View for ClipboardWorkspace {
    type V = WorkspaceView;

    closed spec fn view(&self) -> WorkspaceView {
        WorkspaceView {
            revision: self.revision,
            capture_state: self.capture_state,
            retention: self.retention,
            search_query: self.search_query@,
            excluded: self.excluded_source_fingerprints@,
            items: items_view(self.items@),
            processed: self.processed_commands@,
        }
    }
}

impl Clone for ClipboardWorkspace {
    fn clone(&self) -> (res: Self)
        ensures
            res@ == self@,
    {
        let mut processed: VecDeque<u128> = VecDeque::new();
        let mut i: usize = 0;
        while i < self.processed_commands.len()
            invariant
                i <= self.processed_commands@.len(),
                processed@ == self.processed_commands@.take(i as int),
            decreases self.processed_commands@.len() - i,
        {
            processed.push_back(self.processed_commands[i]);
            i += 1;
            assert(processed@ =~= self.processed_commands@.take(i as int));
        }
        assert(processed@ =~= self.processed_commands@);
        ClipboardWorkspace {
            revision: self.revision,
            capture_state: self.capture_state,
            retention: self.retention,
            search_query: self.search_query.clone(),
            excluded_source_fingerprints: self.excluded_source_fingerprints.clone(),
            items: clone_items(&self.items),
            processed_commands: processed,
        }
    }
}

impl Default for ClipboardWorkspace {
    fn default() -> (res: Self)
        ensures
            res@ == initial_workspace(),
    {
        let res = ClipboardWorkspace {
            revision: 0,
            capture_state: CaptureState::Paused,
            retention: RetentionPolicy::default(),
            search_query: String::new(),
            excluded_source_fingerprints: SourceExclusions::from_texts(Vec::new()),
            items: Vec::new(),
            processed_commands: VecDeque::new(),
        };
        proof {
            assert(res@.excluded =~= Set::empty());
            assert(res@.items =~= Seq::empty());
            assert(res@.processed =~= Seq::empty());
            assert(res@.search_query =~= Seq::empty());
        }
        res
    }
}

impl ClipboardWorkspace {
    pub fn revision(&self) -> (res: u64)
        ensures
            res == self@.revision,
    {
        self.revision
    }

    pub fn capture_state(&self) -> (res: CaptureState)
        ensures
            res == self@.capture_state,
    {
        self.capture_state
    }

    pub fn retention(&self) -> (res: RetentionPolicy)
        ensures
            res == self@.retention,
    {
        self.retention
    }

    pub fn search_query(&self) -> (res: &str)
        ensures
            res@ == self@.search_query,
    {
        self.search_query.as_str()
    }

    /// The history, newest first.
    pub fn items(&self) -> (res: &[ClipboardItem])
        ensures
            items_view(res@) == self@.items,
    {
        self.items.as_slice()
    }

    /// The excluded fingerprints in ascending order, each once.
    pub fn excluded_source_fingerprints(&self) -> (res: &Vec<String>)
        ensures
            ascending(texts(res@)),
            texts(res@).to_set() == self@.excluded,
    {
        self.excluded_source_fingerprints.as_vec()
    }

    /// The items that the search query shows, the pinned ones first.
    pub fn visible_items(&self) -> (res: Vec<&ClipboardItem>)
        ensures
            item_refs(res@) == visible(self@.items, shown(self@)),
    {
        let query = to_lowercase(self.search_query.as_str());
        let mut matched: Vec<bool> = Vec::new();
        let mut i: usize = 0;
        while i < self.items.len()
            invariant
                i <= self.items@.len(),
                query@ == lowercase(self@.search_query),
                matched@ == shown(self@).take(i as int),
            decreases self.items@.len() - i,
        {
            let shows = self.search_query.as_str().unicode_len() == 0 || query_matches(
                to_lowercase(self.items[i].text.as_str()).as_str(),
                query.as_str(),
            );
            matched.push(shows);
            assert(matched@ =~= shown(self@).take(i + 1));
            i += 1;
        }
        assert(matched@ =~= shown(self@));
        self.select_visible(&matched)
    }

    /// The items that are marked as shown, the pinned ones first.
    pub fn select_visible(&self, matched: &Vec<bool>) -> (res: Vec<&ClipboardItem>)
        requires
            matched@.len() == self@.items.len(),
        ensures
            item_refs(res@) == visible(self@.items, matched@),
    {
        let mut res: Vec<&ClipboardItem> = Vec::new();
        self.push_shown(matched, true, &mut res);
        self.push_shown(matched, false, &mut res);
        assert(item_refs(res@) =~= visible(self@.items, matched@));
        res
    }

    fn push_shown<'a>(
        &'a self,
        matched: &Vec<bool>,
        is_pinned: bool,
        res: &mut Vec<&'a ClipboardItem>,
    )
        requires
            matched@.len() == self@.items.len(),
        ensures
            item_refs(final(res)@) == item_refs(old(res)@) + shown_with_pin(
                self@.items,
                matched@,
                is_pinned,
            ),
    {
        let ghost before = item_refs(res@);
        let mut i: usize = 0;
        assert(item_refs(res@) =~= before + shown_with_pin(
            self@.items.take(0),
            matched@,
            is_pinned,
        ));
        while i < self.items.len()
            invariant
                i <= self.items@.len(),
                matched@.len() == self.items@.len(),
                item_refs(res@) == before + shown_with_pin(
                    self@.items.take(i as int),
                    matched@,
                    is_pinned,
                ),
            decreases self.items@.len() - i,
        {
            proof {
                let next = self@.items.take(i + 1);
                assert(next.drop_last() =~= self@.items.take(i as int));
                assert(next.last() == self.items@[i as int]@);
            }
            let ghost seen = res@;
            if matched[i] && self.items[i].is_pinned == is_pinned {
                res.push(&self.items[i]);
                assert(item_refs(res@) =~= item_refs(seen).push(self.items@[i as int]@));
                assert(item_refs(res@) =~= before + shown_with_pin(
                    self@.items.take(i + 1),
                    matched@,
                    is_pinned,
                ));
            }
            i += 1;
        }
        assert(self@.items.take(i as int) =~= self@.items);
    }

    /// A workspace from stored parts. Parts that the reducer could not have reached are refused,
    /// and retention is applied to the rest.
    pub fn from_snapshot_parts(
        revision: u64,
        capture_state: CaptureState,
        retention: RetentionPolicy,
        search_query: String,
        exclusions: Vec<String>,
        items: Vec<ClipboardItem>,
        now: Timestamp,
    ) -> (res: Result<Self, WorkspaceError>)
        ensures
            match res {
                Ok(workspace) => {
                    &&& valid_parts(
                        retention,
                        search_query@,
                        texts(exclusions@),
                        items_view(items@),
                    )
                    &&& workspace@ == (WorkspaceView {
                        revision,
                        capture_state,
                        retention,
                        search_query: search_query@,
                        excluded: texts(exclusions@).to_set(),
                        items: retained(items_view(items@), retention, now.unix_nanos),
                        processed: Seq::empty(),
                    })
                },
                Err(error) => {
                    &&& error == WorkspaceError::InvalidSnapshot
                    &&& !valid_parts(
                        retention,
                        search_query@,
                        texts(exclusions@),
                        items_view(items@),
                    )
                },
            },
    {
        if retention.validate().is_err() || search_query.as_str().unicode_len()
            > MAX_SEARCH_CHARACTERS || !are_valid_exclusions(&exclusions) {
            return Err(WorkspaceError::InvalidSnapshot);
        }
        let mut i: usize = 0;
        while i < items.len()
            invariant
                i <= items@.len(),
                forall|j: int| 0 <= j < i ==> valid_item(#[trigger] items_view(items@)[j]),
            decreases items@.len() - i,
        {
            if !is_valid_item(&items[i]) {
                assert(!valid_item(items_view(items@)[i as int]));
                return Err(WorkspaceError::InvalidSnapshot);
            }
            i += 1;
        }
        let mut workspace = ClipboardWorkspace {
            revision,
            capture_state,
            retention,
            search_query,
            excluded_source_fingerprints: SourceExclusions::from_texts(exclusions),
            items,
            processed_commands: VecDeque::new(),
        };
        workspace.enforce_retention(now);
        assert(workspace@.processed =~= Seq::empty());
        Ok(workspace)
    }

    /// Apply a command to the revision that its sender saw. A command that is refused changes
    /// nothing.
    pub fn apply(
        &mut self,
        command_id: u128,
        expected_revision: u64,
        action: WorkspaceAction,
        now: Timestamp,
    ) -> (res: Result<(), WorkspaceError>)
        ensures
            match apply_outcome(
                old(self)@,
                command_id,
                expected_revision,
                action@,
                now.unix_nanos,
            ) {
                Ok(after) => res is Ok && final(self)@ == after,
                Err(error) => res == Err::<(), WorkspaceError>(error) && final(self)@ == old(self)@,
            },
    {
        if self.was_processed(command_id) {
            return Err(WorkspaceError::DuplicateCommand);
        }
        if expected_revision != self.revision {
            return Err(WorkspaceError::RevisionConflict);
        }
        match self.perform(action, now) {
            Ok(()) => (),
            Err(error) => return Err(error),
        }
        self.revision = self.revision.saturating_add(1);
        self.processed_commands.push_back(command_id);
        if self.processed_commands.len() > MAX_PROCESSED_COMMANDS {
            let ghost all = self.processed_commands@;
            self.processed_commands.pop_front();
            assert(self.processed_commands@ =~= all.drop_first());
        }
        assert(self.processed_commands@ =~= remember(old(self)@.processed, command_id));
        Ok(())
    }

    fn was_processed(&self, command_id: u128) -> (res: bool)
        ensures
            res == self@.processed.contains(command_id),
    {
        let mut i: usize = 0;
        while i < self.processed_commands.len()
            invariant
                i <= self.processed_commands@.len(),
                forall|j: int| 0 <= j < i ==> self.processed_commands@[j] != command_id,
            decreases self.processed_commands@.len() - i,
        {
            if self.processed_commands[i] == command_id {
                return true;
            }
            i += 1;
        }
        false
    }

    fn perform(&mut self, action: WorkspaceAction, now: Timestamp) -> (res: Result<
        (),
        WorkspaceError,
    >)
        ensures
            match act(old(self)@, action@, now.unix_nanos) {
                Ok(after) => res is Ok && final(self)@ == after,
                Err(error) => res == Err::<(), WorkspaceError>(error) && final(self)@ == old(self)@,
            },
    {
        match action {
            WorkspaceAction::PauseCapture => {
                self.capture_state = CaptureState::Paused;
                Ok(())
            },
            WorkspaceAction::ResumeCapture => {
                self.capture_state = CaptureState::Active;
                Ok(())
            },
            WorkspaceAction::SetSearch(query) => {
                if query.as_str().unicode_len() > MAX_SEARCH_CHARACTERS {
                    return Err(WorkspaceError::InvalidSearch);
                }
                self.search_query = query;
                Ok(())
            },
            WorkspaceAction::PinItem(item_id) => self.set_pinned(item_id, true),
            WorkspaceAction::UnpinItem(item_id) => {
                match self.set_pinned(item_id, false) {
                    Ok(()) => (),
                    Err(error) => return Err(error),
                }
                self.enforce_retention(now);
                Ok(())
            },
            WorkspaceAction::DeleteItem(item_id) => {
                if find_id(&self.items, item_id) == self.items.len() {
                    return Err(WorkspaceError::ItemNotFound);
                }
                self.keep(KeepRule::OtherThan(item_id));
                Ok(())
            },
            WorkspaceAction::ClearUnpinned => {
                self.keep(KeepRule::Pinned);
                Ok(())
            },
            WorkspaceAction::SetRetention(policy) => {
                self.retention = match policy.validate() {
                    Ok(valid) => valid,
                    Err(error) => return Err(error),
                };
                self.enforce_retention(now);
                Ok(())
            },
            WorkspaceAction::SetSourceExclusions(fingerprints) => {
                if !are_valid_exclusions(&fingerprints) {
                    return Err(WorkspaceError::InvalidSourceFingerprint);
                }
                self.excluded_source_fingerprints = SourceExclusions::from_texts(fingerprints);
                Ok(())
            },
            WorkspaceAction::IngestText {
                item_id,
                text,
                content_sha256,
                byte_size,
                captured_at,
                source_fingerprint,
            } => self.ingest_text(
                ClipboardItem {
                    item_id,
                    text,
                    content_sha256,
                    byte_size,
                    captured_at,
                    is_pinned: false,
                    source_fingerprint,
                },
                now,
            ),
        }
    }

    /// Why the workspace does not take an item in, if it does not.
    fn check_item(&self, item: &ClipboardItem) -> (res: Option<WorkspaceError>)
        ensures
            res == ingest_error(self@, item@),
    {
        if self.capture_state != CaptureState::Active {
            return Some(WorkspaceError::CapturePaused);
        }
        if !is_valid_content(item.text.as_str(), item.byte_size) {
            return Some(WorkspaceError::InvalidContentSize);
        }
        if item.content_sha256 != content_sha256_hex(item.text.as_str()) {
            return Some(WorkspaceError::InvalidContentHash);
        }
        match &item.source_fingerprint {
            Some(value) => {
                if !is_source_fingerprint(value.as_str()) {
                    return Some(WorkspaceError::InvalidSourceFingerprint);
                }
                if self.excluded_source_fingerprints.contains(value) {
                    return Some(WorkspaceError::ExcludedSource);
                }
            },
            None => (),
        }
        None
    }

    fn ingest_text(&mut self, item: ClipboardItem, now: Timestamp) -> (res: Result<
        (),
        WorkspaceError,
    >)
        ensures
            match ingest_outcome(old(self)@, item@, now.unix_nanos) {
                Ok(after) => res is Ok && final(self)@ == after,
                Err(error) => res == Err::<(), WorkspaceError>(error) && final(self)@ == old(self)@,
            },
    {
        match self.check_item(&item) {
            Some(error) => return Err(error),
            None => (),
        }
        let ghost before = self.items@;
        let ghost offered = item@;
        let index: usize = find_hash(&self.items, &item.content_sha256);
        if self.retention.deduplicate && index < self.items.len() {
            let mut moved = self.items.remove(index);
            moved.captured_at = item.captured_at;
            moved.source_fingerprint = item.source_fingerprint;
            self.items.insert(0, moved);
        } else {
            self.items.insert(0, item);
        }
        assert(items_view(self.items@) =~= with_item(items_view(before), self.retention, offered));
        self.enforce_retention(now);
        Ok(())
    }

    fn set_pinned(&mut self, item_id: u128, is_pinned: bool) -> (res: Result<(), WorkspaceError>)
        ensures
            match with_pin(old(self)@.items, item_id, is_pinned) {
                Some(items) => res is Ok && final(self)@ == (WorkspaceView { items, ..old(self)@ }),
                None => res is Err && res->Err_0 == WorkspaceError::ItemNotFound && final(self)@
                    == old(self)@,
            },
    {
        let index: usize = find_id(&self.items, item_id);
        if index == self.items.len() {
            return Err(WorkspaceError::ItemNotFound);
        }
        let ghost before = self.items@;
        let mut item = self.items.remove(index);
        item.is_pinned = is_pinned;
        self.items.insert(index, item);
        assert(items_view(self.items@) =~= items_view(before).update(
            index as int,
            ItemView { is_pinned, ..items_view(before)[index as int] },
        ));
        Ok(())
    }

    fn keep(&mut self, rule: KeepRule)
        ensures
            final(self)@ == (WorkspaceView {
                items: old(self)@.items.filter(rule.keeps()),
                ..old(self)@
            }),
    {
        let mut items: Vec<ClipboardItem> = Vec::new();
        std::mem::swap(&mut items, &mut self.items);
        self.items = keep_items(items, rule);
    }

    /// Drop what the retention policy does not keep at that moment.
    pub(crate) fn enforce_retention(&mut self, now: Timestamp)
        ensures
            final(self)@ == (WorkspaceView {
                items: retained(old(self)@.items, old(self)@.retention, now.unix_nanos),
                ..old(self)@
            }),
    {
        self.keep(KeepRule::NotExpired(self.retention, now));
        let mut items: Vec<ClipboardItem> = Vec::new();
        std::mem::swap(&mut items, &mut self.items);
        self.items = cap_items(items, self.retention.max_items);
    }
}

/// Whether the history takes a text of that size.
pub fn is_valid_content(text: &str, byte_size: usize) -> (res: bool)
    ensures
        res == valid_content(text@, byte_size),
        res <==> 1 <= text@.len() <= 65_536 && encode_utf8(text@).len() <= 1_048_576 && byte_size
            == encode_utf8(text@).len(),
{
    let characters: usize = text.unicode_len();
    let bytes: usize = text.as_bytes().len();
    characters >= 1 && characters <= MAX_TEXT_CHARACTERS && bytes <= MAX_TEXT_BYTES && byte_size
        == bytes
}

} // verus!
