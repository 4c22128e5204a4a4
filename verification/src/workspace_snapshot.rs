//! Authenticated, bounded workspace snapshot envelopes.
//!
//! This module is deliberately a codec boundary, not an automatic history store. Callers must
//! provide a 32-byte key from a platform-approved secret provider before opting into persistence.
//! Plaintext clipboard content never appears in errors, logs, or the envelope metadata.
//!
//! The documents are plain records here; the caller writes them to JSON bytes and reads them back.
pub mod laws;

use crate::crypto::{
    drawn_bytes, random_bytes, xchacha20poly1305_open, xchacha20poly1305_opened,
    xchacha20poly1305_seal, xchacha20poly1305_sealed, AEAD_TAG_LEN,
};
use crate::encoding::copy_array;
use crate::formats::{
    base64url_bytes, base64url_decode, base64url_encode, base64url_text, rfc3339_format,
    rfc3339_nanos, rfc3339_parse, rfc3339_text, uuid_of_text, uuid_parse, uuid_text, uuid_to_text,
    RFC3339_END,
};
use crate::secrets::SecretKey;
use crate::text::{optional_text, same_text, texts};
use crate::workspace::model::{retained, valid_parts, valid_workspace, ItemView, WorkspaceView};
use crate::workspace::{
    ascending, clone_texts, items_view, sorted_texts, CaptureState, ClipboardItem,
    ClipboardWorkspace, RetentionPolicy, Timestamp,
};
use vstd::prelude::*;
use vstd::string::*;
use vstd::utf8::*;

verus! {

pub const SNAPSHOT_ASSOCIATED_DATA: &'static str = "file-tunnel.desktop-workspace.v1";

pub const SNAPSHOT_ALGORITHM: &'static str = "xchacha20-poly1305";

pub const SNAPSHOT_MAX_ENVELOPE_BYTES: usize = 8_388_608;

pub const SNAPSHOT_MAX_PLAINTEXT_BYTES: usize = 6_291_456;

pub const SNAPSHOT_SCHEMA_VERSION: u8 = 1;

pub const XCHACHA20_KEY_BYTES: usize = 32;

pub const XCHACHA20_NONCE_BYTES: usize = 24;

#[derive(Clone, Copy, Debug, PartialEq, Eq, Structural)]
pub enum SnapshotError {
    InvalidKey,
    InvalidEnvelope,
    TooLarge,
    InvalidEncoding,
    AuthenticationFailed,
    InvalidWorkspace,
}

/// The sentence shown for an error.
pub open spec fn snapshot_error_text(error: SnapshotError) -> Seq<char> {
    match error {
        SnapshotError::InvalidKey => "the snapshot key is invalid"@,
        SnapshotError::InvalidEnvelope => "the snapshot envelope is invalid"@,
        SnapshotError::TooLarge => "the snapshot is too large"@,
        SnapshotError::InvalidEncoding => "the snapshot encoding is invalid"@,
        SnapshotError::AuthenticationFailed => "the snapshot could not be authenticated"@,
        SnapshotError::InvalidWorkspace => "the workspace snapshot is invalid"@,
    }
}

impl SnapshotError {
    pub fn message(&self) -> (res: &'static str)
        ensures
            res@ == snapshot_error_text(*self),
    {
        match self {
            SnapshotError::InvalidKey => "the snapshot key is invalid",
            SnapshotError::InvalidEnvelope => "the snapshot envelope is invalid",
            SnapshotError::TooLarge => "the snapshot is too large",
            SnapshotError::InvalidEncoding => "the snapshot encoding is invalid",
            SnapshotError::AuthenticationFailed => "the snapshot could not be authenticated",
            SnapshotError::InvalidWorkspace => "the workspace snapshot is invalid",
        }
    }
}

/// The document that carries an encrypted snapshot.
#[derive(Debug, PartialEq, Eq)]
pub struct Envelope {
    pub document_type: String,
    pub schema_version: u8,
    pub algorithm: String,
    pub associated_data: String,
    pub nonce: String,
    pub ciphertext: String,
}

#[verifier::ext_equal]
pub struct EnvelopeView {
    pub document_type: Seq<char>,
    pub schema_version: u8,
    pub algorithm: Seq<char>,
    pub associated_data: Seq<char>,
    pub nonce: Seq<char>,
    pub ciphertext: Seq<char>,
}

impl View for Envelope {
    type V = EnvelopeView;

    open spec fn view(&self) -> EnvelopeView {
        EnvelopeView {
            document_type: self.document_type@,
            schema_version: self.schema_version,
            algorithm: self.algorithm@,
            associated_data: self.associated_data@,
            nonce: self.nonce@,
            ciphertext: self.ciphertext@,
        }
    }
}

/// The plaintext document of a workspace.
#[derive(Debug, PartialEq, Eq)]
pub struct SnapshotWire {
    pub document_type: String,
    pub schema_version: u8,
    pub revision: u64,
    pub capture_state: String,
    pub retention: RetentionWire,
    pub search_query: String,
    pub excluded_source_fingerprints: Vec<String>,
    pub items: Vec<ItemWire>,
}

#[derive(Clone, Copy, Debug, PartialEq, Eq, Structural)]
pub struct RetentionWire {
    pub max_items: usize,
    pub max_age_days: u16,
    pub deduplicate: bool,
}

#[derive(Debug, PartialEq, Eq)]
pub struct ItemWire {
    pub item_id: String,
    pub content_kind: String,
    pub text: String,
    pub content_sha256: String,
    pub byte_size: usize,
    pub captured_at: String,
    pub is_pinned: bool,
    pub source_fingerprint: Option<String>,
}

#[verifier::ext_equal]
pub struct ItemWireView {
    pub item_id: Seq<char>,
    pub content_kind: Seq<char>,
    pub text: Seq<char>,
    pub content_sha256: Seq<char>,
    pub byte_size: usize,
    pub captured_at: Seq<char>,
    pub is_pinned: bool,
    pub source_fingerprint: Option<Seq<char>>,
}

#[verifier::ext_equal]
pub struct WireView {
    pub document_type: Seq<char>,
    pub schema_version: u8,
    pub revision: u64,
    pub capture_state: Seq<char>,
    pub retention: RetentionWire,
    pub search_query: Seq<char>,
    pub excluded: Seq<Seq<char>>,
    pub items: Seq<ItemWireView>,
}

impl View for ItemWire {
    type V = ItemWireView;

    open spec fn view(&self) -> ItemWireView {
        ItemWireView {
            item_id: self.item_id@,
            content_kind: self.content_kind@,
            text: self.text@,
            content_sha256: self.content_sha256@,
            byte_size: self.byte_size,
            captured_at: self.captured_at@,
            is_pinned: self.is_pinned,
            source_fingerprint: optional_text(self.source_fingerprint),
        }
    }
}

/// The items of a vector.
pub open spec fn item_wires(items: Seq<ItemWire>) -> Seq<ItemWireView> {
    Seq::new(items.len(), |i: int| items[i]@)
}

impl View for SnapshotWire {
    type V = WireView;

    open spec fn view(&self) -> WireView {
        WireView {
            document_type: self.document_type@,
            schema_version: self.schema_version,
            revision: self.revision,
            capture_state: self.capture_state@,
            retention: self.retention,
            search_query: self.search_query@,
            excluded: texts(self.excluded_source_fingerprints@),
            items: item_wires(self.items@),
        }
    }
}

// ---- timestamps ----

/// Whether a moment can be written: from the Unix epoch to the end of the year 9999.
pub open spec fn writable_time(nanos: i128) -> bool {
    0 <= nanos < RFC3339_END
}

/// The text of a moment.
pub fn format_timestamp(value: Timestamp) -> (res: Result<String, SnapshotError>)
    ensures
        match res {
            Ok(text) => {
                &&& writable_time(value.unix_nanos)
                &&& rfc3339_text(value.unix_nanos) == Some(text@)
                &&& rfc3339_nanos(text@) == Some(value.unix_nanos)
            },
            Err(error) => {
                &&& !writable_time(value.unix_nanos)
                &&& error == SnapshotError::InvalidWorkspace
            },
        },
{
    if value.unix_nanos < 0 {
        return Err(SnapshotError::InvalidWorkspace);
    }
    match rfc3339_format(value.unix_nanos) {
        Some(text) => Ok(text),
        None => Err(SnapshotError::InvalidWorkspace),
    }
}

/// The moment that a parsed text stands for, `None` for no moment or one before the Unix epoch.
pub open spec fn timestamp_of(parsed: Option<i128>) -> Option<i128> {
    match parsed {
        Some(nanos) => if nanos < 0 {
            None
        } else {
            Some(nanos)
        },
        None => None,
    }
}

/// The moment that a parsed text stands for.
pub fn check_timestamp(parsed: Option<i128>) -> (res: Result<Timestamp, SnapshotError>)
    ensures
        match res {
            Ok(value) => timestamp_of(parsed) == Some(value.unix_nanos),
            Err(error) => timestamp_of(parsed) is None && error == SnapshotError::InvalidWorkspace,
        },
{
    match parsed {
        Some(nanos) => if nanos < 0 {
            Err(SnapshotError::InvalidWorkspace)
        } else {
            Ok(Timestamp { unix_nanos: nanos })
        },
        None => Err(SnapshotError::InvalidWorkspace),
    }
}

/// The moment that a text stands for.
pub fn parse_timestamp(value: &str) -> (res: Result<Timestamp, SnapshotError>)
    ensures
        match res {
            Ok(moment) => timestamp_of(rfc3339_nanos(value@)) == Some(moment.unix_nanos),
            Err(error) => timestamp_of(rfc3339_nanos(value@)) is None && error
                == SnapshotError::InvalidWorkspace,
        },
{
    check_timestamp(rfc3339_parse(value))
}

// ---- the plaintext document ----

pub open spec fn capture_word(state: CaptureState) -> Seq<char> {
    match state {
        CaptureState::Active => "active"@,
        CaptureState::Paused => "paused"@,
    }
}

/// The document's record of an item.
pub open spec fn item_to_wire(item: ItemView) -> ItemWireView {
    ItemWireView {
        item_id: uuid_text(item.item_id),
        content_kind: "text"@,
        text: item.text,
        content_sha256: item.content_sha256,
        byte_size: item.byte_size,
        captured_at: rfc3339_text(item.captured_at).unwrap(),
        is_pinned: item.is_pinned,
        source_fingerprint: item.source_fingerprint,
    }
}

/// An item's identifier and time are read back from its record.
pub open spec fn item_reads_back(item: ItemView) -> bool {
    &&& rfc3339_text(item.captured_at) is Some
    &&& rfc3339_nanos(rfc3339_text(item.captured_at).unwrap()) == Some(item.captured_at)
    &&& uuid_of_text(uuid_text(item.item_id)) == Some(item.item_id)
}

pub open spec fn writable_items(items: Seq<ItemView>) -> bool {
    forall|i: int| 0 <= i < items.len() ==> writable_time((#[trigger] items[i]).captured_at)
}

/// `wire` is the document of the workspace.
pub open spec fn encodes(w: WorkspaceView, wire: WireView) -> bool {
    &&& wire.document_type == "workspace_snapshot"@
    &&& wire.schema_version == SNAPSHOT_SCHEMA_VERSION
    &&& wire.revision == w.revision
    &&& wire.capture_state == capture_word(w.capture_state)
    &&& wire.retention == (RetentionWire {
        max_items: w.retention.max_items,
        max_age_days: w.retention.max_age_days,
        deduplicate: w.retention.deduplicate,
    })
    &&& wire.search_query == w.search_query
    &&& ascending(wire.excluded) && wire.excluded.to_set() == w.excluded
    &&& wire.items == Seq::new(w.items.len(), |i: int| item_to_wire(w.items[i]))
    &&& forall|i: int| 0 <= i < w.items.len() ==> item_reads_back(#[trigger] w.items[i])
}

fn encode_item(item: &ClipboardItem) -> (res: Result<ItemWire, SnapshotError>)
    ensures
        match res {
            Ok(wire) => {
                &&& writable_time(item@.captured_at)
                &&& wire@ == item_to_wire(item@)
                &&& item_reads_back(item@)
            },
            Err(error) => {
                &&& !writable_time(item@.captured_at)
                &&& error == SnapshotError::InvalidWorkspace
            },
        },
{
    let captured_at = match format_timestamp(item.captured_at) {
        Ok(text) => text,
        Err(error) => return Err(error),
    };
    Ok(
        ItemWire {
            item_id: uuid_to_text(item.item_id),
            content_kind: "text".to_owned(),
            text: item.text.clone(),
            content_sha256: item.content_sha256.clone(),
            byte_size: item.byte_size,
            captured_at,
            is_pinned: item.is_pinned,
            source_fingerprint: match &item.source_fingerprint {
                Some(value) => Some(value.clone()),
                None => None,
            },
        },
    )
}

/// The plaintext document of a workspace.
pub fn encode_snapshot(workspace: &ClipboardWorkspace) -> (res: Result<SnapshotWire, SnapshotError>)
    ensures
        match res {
            Ok(wire) => writable_items(workspace@.items) && encodes(workspace@, wire@),
            Err(error) => {
                &&& !writable_items(workspace@.items)
                &&& error == SnapshotError::InvalidWorkspace
            },
        },
{
    let source = workspace.items();
    let ghost all = workspace@.items;
    let mut items: Vec<ItemWire> = Vec::new();
    let mut i: usize = 0;
    while i < source.len()
        invariant
            i <= source@.len(),
            all == items_view(source@),
            all == workspace@.items,
            items@.len() == i,
            forall|j: int| 0 <= j < i ==> (#[trigger] items@[j])@ == item_to_wire(all[j]),
            forall|j: int| 0 <= j < i ==> writable_time((#[trigger] all[j]).captured_at),
            forall|j: int| 0 <= j < i ==> item_reads_back(#[trigger] all[j]),
        decreases source@.len() - i,
    {
        assert(all[i as int] == source@[i as int]@);
        match encode_item(&source[i]) {
            Ok(item) => items.push(item),
            Err(error) => {
                assert(!writable_time(all[i as int].captured_at));
                return Err(error);
            },
        }
        i += 1;
    }
    let retention = workspace.retention();
    let wire = SnapshotWire {
        document_type: "workspace_snapshot".to_owned(),
        schema_version: SNAPSHOT_SCHEMA_VERSION,
        revision: workspace.revision(),
        capture_state: match workspace.capture_state() {
            CaptureState::Active => "active".to_owned(),
            CaptureState::Paused => "paused".to_owned(),
        },
        retention: RetentionWire {
            max_items: retention.max_items,
            max_age_days: retention.max_age_days,
            deduplicate: retention.deduplicate,
        },
        search_query: workspace.search_query().to_owned(),
        excluded_source_fingerprints: clone_texts(workspace.excluded_source_fingerprints()),
        items,
    };
    assert(wire@.items =~= Seq::new(all.len(), |i: int| item_to_wire(all[i])));
    Ok(wire)
}

/// The item that a record describes, `None` where it describes none.
pub open spec fn item_of_wire(wire: ItemWireView) -> Option<ItemView> {
    match (uuid_of_text(wire.item_id), timestamp_of(rfc3339_nanos(wire.captured_at))) {
        (Some(item_id), Some(captured_at)) => if wire.content_kind == "text"@ && uuid_text(item_id)
            == wire.item_id {
            Some(
                ItemView {
                    item_id,
                    text: wire.text,
                    content_sha256: wire.content_sha256,
                    byte_size: wire.byte_size,
                    captured_at,
                    is_pinned: wire.is_pinned,
                    source_fingerprint: wire.source_fingerprint,
                },
            )
        } else {
            None
        },
        _ => None,
    }
}

pub open spec fn items_of_wires(wires: Seq<ItemWireView>) -> Seq<ItemView> {
    Seq::new(wires.len(), |i: int| item_of_wire(wires[i]).unwrap())
}

pub open spec fn capture_state_of(word: Seq<char>) -> Option<CaptureState> {
    if word == "active"@ {
        Some(CaptureState::Active)
    } else if word == "paused"@ {
        Some(CaptureState::Paused)
    } else {
        None
    }
}

pub open spec fn retention_of(wire: RetentionWire) -> RetentionPolicy {
    RetentionPolicy {
        max_items: wire.max_items,
        max_age_days: wire.max_age_days,
        deduplicate: wire.deduplicate,
    }
}

/// The document is one of this version.
pub open spec fn known_document(wire: WireView) -> bool {
    wire.document_type == "workspace_snapshot"@ && wire.schema_version == SNAPSHOT_SCHEMA_VERSION
}

/// The document describes a workspace that the reducer could have reached.
pub open spec fn describes_workspace(wire: WireView) -> bool {
    &&& capture_state_of(wire.capture_state) is Some
    &&& wire.excluded.no_duplicates()
    &&& forall|i: int| 0 <= i < wire.items.len() ==> item_of_wire(#[trigger] wire.items[i]) is Some
    &&& valid_parts(
        retention_of(wire.retention),
        wire.search_query,
        wire.excluded,
        items_of_wires(wire.items),
    )
}

/// The workspace that a document restores, with retention applied at that moment.
pub open spec fn restored(wire: WireView, now: i128) -> WorkspaceView {
    WorkspaceView {
        revision: wire.revision,
        capture_state: capture_state_of(wire.capture_state).unwrap(),
        retention: retention_of(wire.retention),
        search_query: wire.search_query,
        excluded: wire.excluded.to_set(),
        items: retained(items_of_wires(wire.items), retention_of(wire.retention), now),
        processed: Seq::empty(),
    }
}

/// What reading a document gives; `None` stands for bytes that are no document.
pub open spec fn decode_outcome(wire: Option<WireView>, now: i128) -> Result<
    WorkspaceView,
    SnapshotError,
> {
    match wire {
        None => Err(SnapshotError::InvalidEnvelope),
        Some(wire) => if !known_document(wire) {
            Err(SnapshotError::InvalidEnvelope)
        } else if !describes_workspace(wire) {
            Err(SnapshotError::InvalidWorkspace)
        } else {
            Ok(restored(wire, now))
        },
    }
}

/// The view of an optional document.
pub open spec fn optional_wire(wire: Option<SnapshotWire>) -> Option<WireView> {
    match wire {
        Some(wire) => Some(wire@),
        None => None,
    }
}

/// The view of an optional envelope.
pub open spec fn optional_envelope(envelope: Option<Envelope>) -> Option<EnvelopeView> {
    match envelope {
        Some(envelope) => Some(envelope@),
        None => None,
    }
}

fn decode_item(item: ItemWire) -> (res: Result<ClipboardItem, SnapshotError>)
    ensures
        match res {
            Ok(decoded) => item_of_wire(item@) == Some(decoded@),
            Err(error) => item_of_wire(item@) is None && error == SnapshotError::InvalidWorkspace,
        },
{
    if !same_text(item.content_kind.as_str(), "text") {
        return Err(SnapshotError::InvalidWorkspace);
    }
    let item_id: u128 = match uuid_parse(item.item_id.as_str()) {
        Some(item_id) => item_id,
        None => return Err(SnapshotError::InvalidWorkspace),
    };
    if uuid_to_text(item_id) != item.item_id {
        return Err(SnapshotError::InvalidWorkspace);
    }
    let captured_at = match parse_timestamp(item.captured_at.as_str()) {
        Ok(captured_at) => captured_at,
        Err(error) => return Err(error),
    };
    Ok(
        ClipboardItem {
            item_id,
            text: item.text,
            content_sha256: item.content_sha256,
            byte_size: item.byte_size,
            captured_at,
            is_pinned: item.is_pinned,
            source_fingerprint: item.source_fingerprint,
        },
    )
}

proof fn lemma_ascending_has_no_duplicates(values: Seq<Seq<char>>)
    requires
        ascending(values),
    ensures
        values.no_duplicates(),
{
    assert forall|i: int, j: int| 0 <= i < j < values.len() implies values[i] != values[j] by {
        assert(crate::text::text_before(values[i], values[j]));
        crate::text::lemma_text_before_irreflexive(values[i]);
    }
}

/// Whether no text occurs twice.
fn all_distinct(values: &Vec<String>) -> (res: bool)
    ensures
        res == texts(values@).no_duplicates(),
{
    let sorted = sorted_texts(clone_texts(values));
    proof {
        let a = texts(values@);
        let b = texts(sorted@);
        lemma_ascending_has_no_duplicates(b);
        b.unique_seq_to_set();
        if a.no_duplicates() {
            a.unique_seq_to_set();
        }
        if a.len() == b.len() {
            a.lemma_no_dup_set_cardinality();
        }
    }
    sorted.len() == values.len()
}

/// Read a snapshot's document, `None` where its bytes are none, and strictly validate it.
/// Retention is re-applied at load time.
pub fn decode_snapshot(parsed: Option<SnapshotWire>, now: Timestamp) -> (res: Result<
    ClipboardWorkspace,
    SnapshotError,
>)
    ensures
        match res {
            Ok(workspace) => decode_outcome(optional_wire(parsed), now.unix_nanos) == Ok::<
                _,
                SnapshotError,
            >(workspace@),
            Err(error) => decode_outcome(optional_wire(parsed), now.unix_nanos) == Err::<
                WorkspaceView,
                _,
            >(error),
        },
{
    let wire = match parsed {
        Some(wire) => wire,
        None => return Err(SnapshotError::InvalidEnvelope),
    };
    let ghost document = wire@;
    if !same_text(wire.document_type.as_str(), "workspace_snapshot") || wire.schema_version
        != SNAPSHOT_SCHEMA_VERSION {
        return Err(SnapshotError::InvalidEnvelope);
    }
    let capture_state = if same_text(wire.capture_state.as_str(), "active") {
        CaptureState::Active
    } else if same_text(wire.capture_state.as_str(), "paused") {
        CaptureState::Paused
    } else {
        return Err(SnapshotError::InvalidWorkspace);
    };
    if !all_distinct(&wire.excluded_source_fingerprints) {
        return Err(SnapshotError::InvalidWorkspace);
    }
    let mut items: Vec<ClipboardItem> = Vec::new();
    for item in it: wire.items
        invariant
            optional_wire(parsed) == Some(document),
            document.items == item_wires(it.seq()),
            items@.len() == it.index(),
            known_document(document),
            forall|j: int|
                0 <= j < items@.len() ==> item_of_wire(document.items[j]) == Some(
                    (#[trigger] items@[j])@,
                ),
    {
        assert(document.items[it.index() as int] == item@);
        match decode_item(item) {
            Ok(decoded) => items.push(decoded),
            Err(error) => {
                assert(!describes_workspace(document));
                return Err(error);
            },
        }
    }
    proof {
        assert(items_view(items@) =~= items_of_wires(document.items));
        assert forall|i: int| 0 <= i < document.items.len() implies item_of_wire(
            #[trigger] document.items[i],
        ) is Some by {
            assert(item_of_wire(document.items[i]) == Some(items@[i]@));
        }
    }
    match ClipboardWorkspace::from_snapshot_parts(
        wire.revision,
        capture_state,
        RetentionPolicy {
            max_items: wire.retention.max_items,
            max_age_days: wire.retention.max_age_days,
            deduplicate: wire.retention.deduplicate,
        },
        wire.search_query,
        wire.excluded_source_fingerprints,
        items,
        now,
    ) {
        Ok(workspace) => Ok(workspace),
        Err(_) => Err(SnapshotError::InvalidWorkspace),
    }
}

/// The words for the two capture states differ.
proof fn lemma_capture_words(state: CaptureState)
    ensures
        capture_state_of(capture_word(state)) == Some(state),
{
    reveal_strlit("active");
    reveal_strlit("paused");
    assert("active"@[0] == 'a');
    assert("paused"@[0] == 'p');
}

/// What was encoded is decoded: a valid workspace comes back as it was, but for the retention
/// that is applied at load time and for the commands, which are not remembered.
pub proof fn decoding_restores_the_encoded_workspace(w: WorkspaceView, wire: WireView, now: i128)
    requires
        valid_workspace(w),
        writable_items(w.items),
        encodes(w, wire),
    ensures
        decode_outcome(Some(wire), now) == Ok::<_, SnapshotError>(
            WorkspaceView {
                items: retained(w.items, w.retention, now),
                processed: Seq::empty(),
                ..w
            },
        ),
{
    lemma_capture_words(w.capture_state);
    lemma_ascending_has_no_duplicates(wire.excluded);
    assert forall|i: int| 0 <= i < wire.items.len() implies item_of_wire(#[trigger] wire.items[i])
        == Some(w.items[i]) by {
        assert(wire.items[i] == item_to_wire(w.items[i]));
        assert(item_reads_back(w.items[i]));
        assert(writable_time(w.items[i].captured_at));
    }
    assert(items_of_wires(wire.items) =~= w.items);
    wire.excluded.unique_seq_to_set();
    assert forall|i: int| 0 <= i < wire.excluded.len() implies crate::workspace::model::valid_fingerprint(
        #[trigger] wire.excluded[i],
    ) by {
        assert(wire.excluded.to_set().contains(wire.excluded[i]));
    }
    assert(retention_of(wire.retention) == w.retention);
}

// ---- the envelope ----

/// The envelope of a nonce and a ciphertext, both as base64 text.
pub open spec fn envelope_of(nonce: Seq<char>, ciphertext: Seq<char>) -> EnvelopeView {
    EnvelopeView {
        document_type: "encrypted_workspace_snapshot"@,
        schema_version: SNAPSHOT_SCHEMA_VERSION,
        algorithm: SNAPSHOT_ALGORITHM@,
        associated_data: SNAPSHOT_ASSOCIATED_DATA@,
        nonce,
        ciphertext,
    }
}

/// The ciphertext of a document.
pub open spec fn sealed_snapshot(plaintext: Seq<u8>, key: Seq<u8>, nonce: Seq<u8>) -> Seq<u8> {
    xchacha20poly1305_sealed(key, nonce, encode_utf8(SNAPSHOT_ASSOCIATED_DATA@), plaintext)
}

/// What encrypting a document gives.
pub open spec fn encrypt_outcome(plaintext: Seq<u8>, key: Seq<u8>, nonce: Seq<u8>) -> Result<
    EnvelopeView,
    SnapshotError,
> {
    if plaintext.len() > SNAPSHOT_MAX_PLAINTEXT_BYTES {
        Err(SnapshotError::TooLarge)
    } else if key.len() != XCHACHA20_KEY_BYTES {
        Err(SnapshotError::InvalidKey)
    } else {
        Ok(
            envelope_of(
                base64url_text(nonce),
                base64url_text(sealed_snapshot(plaintext, key, nonce)),
            ),
        )
    }
}

/// An envelope's texts decode to what was put in, and its ciphertext opens to the document.
pub open spec fn envelope_reads_back(plaintext: Seq<u8>, key: Seq<u8>, nonce: Seq<u8>) -> bool {
    let sealed = sealed_snapshot(plaintext, key, nonce);
    &&& base64url_bytes(base64url_text(nonce)) == Some(nonce)
    &&& base64url_bytes(base64url_text(sealed)) == Some(sealed)
    &&& sealed.len() == plaintext.len() + AEAD_TAG_LEN
    &&& xchacha20poly1305_opened(
        key,
        nonce,
        encode_utf8(SNAPSHOT_ASSOCIATED_DATA@),
        sealed,
    ) == Some(plaintext)
}

/// `outcome` is what encrypting gives, and an envelope reads back.
pub open spec fn encrypted(
    plaintext: Seq<u8>,
    key: Seq<u8>,
    nonce: Seq<u8>,
    outcome: Result<EnvelopeView, SnapshotError>,
) -> bool {
    &&& outcome == encrypt_outcome(plaintext, key, nonce)
    &&& outcome is Ok ==> envelope_reads_back(plaintext, key, nonce)
}

/// The view of an encryption's result.
pub open spec fn envelope_result(res: Result<Envelope, SnapshotError>) -> Result<
    EnvelopeView,
    SnapshotError,
> {
    match res {
        Ok(envelope) => Ok(envelope@),
        Err(error) => Err(error),
    }
}

/// The view of a decryption's result.
pub open spec fn plaintext_result(res: Result<Vec<u8>, SnapshotError>) -> Result<
    Seq<u8>,
    SnapshotError,
> {
    match res {
        Ok(plaintext) => Ok(plaintext@),
        Err(error) => Err(error),
    }
}

/// The envelope is one of this version and algorithm.
pub open spec fn known_envelope(envelope: EnvelopeView) -> bool {
    envelope == envelope_of(envelope.nonce, envelope.ciphertext)
}

/// The nonce that a decoded text is.
pub open spec fn nonce_outcome(decoded: Option<Seq<u8>>) -> Result<Seq<u8>, SnapshotError> {
    match decoded {
        None => Err(SnapshotError::InvalidEncoding),
        Some(bytes) => if bytes.len() != XCHACHA20_NONCE_BYTES {
            Err(SnapshotError::InvalidEnvelope)
        } else {
            Ok(bytes)
        },
    }
}

/// The ciphertext that a decoded text is.
pub open spec fn ciphertext_outcome(decoded: Option<Seq<u8>>) -> Result<Seq<u8>, SnapshotError> {
    match decoded {
        None => Err(SnapshotError::InvalidEncoding),
        Some(bytes) => if bytes.len() < AEAD_TAG_LEN || bytes.len() > SNAPSHOT_MAX_PLAINTEXT_BYTES
            + AEAD_TAG_LEN {
            Err(SnapshotError::TooLarge)
        } else {
            Ok(bytes)
        },
    }
}

/// What opening an envelope of `encoded_len` bytes gives; `None` stands for bytes that are no
/// envelope.
pub open spec fn decrypt_outcome(
    encoded_len: nat,
    envelope: Option<EnvelopeView>,
    key: Seq<u8>,
) -> Result<Seq<u8>, SnapshotError> {
    if encoded_len > SNAPSHOT_MAX_ENVELOPE_BYTES {
        Err(SnapshotError::TooLarge)
    } else {
        match envelope {
            None => Err(SnapshotError::InvalidEnvelope),
            Some(envelope) => if !known_envelope(envelope) {
                Err(SnapshotError::InvalidEnvelope)
            } else {
                match (
                    nonce_outcome(base64url_bytes(envelope.nonce)),
                    ciphertext_outcome(base64url_bytes(envelope.ciphertext)),
                ) {
                    (Err(error), _) => Err(error),
                    (_, Err(error)) => Err(error),
                    (Ok(nonce), Ok(ciphertext)) => if key.len() != XCHACHA20_KEY_BYTES {
                        Err(SnapshotError::InvalidKey)
                    } else {
                        match xchacha20poly1305_opened(
                            key,
                            nonce,
                            encode_utf8(SNAPSHOT_ASSOCIATED_DATA@),
                            ciphertext,
                        ) {
                            Some(plaintext) => Ok(plaintext),
                            None => Err(SnapshotError::AuthenticationFailed),
                        }
                    },
                }
            },
        }
    }
}

/// The same key opens what it sealed: an envelope that is not too long gives its document back.
pub proof fn decrypting_returns_the_encrypted_document(
    plaintext: Seq<u8>,
    key: Seq<u8>,
    nonce: Seq<u8>,
    envelope: EnvelopeView,
    encoded_len: nat,
)
    requires
        nonce.len() == XCHACHA20_NONCE_BYTES,
        encrypted(plaintext, key, nonce, Ok(envelope)),
        encoded_len <= SNAPSHOT_MAX_ENVELOPE_BYTES,
    ensures
        decrypt_outcome(encoded_len, Some(envelope), key) == Ok::<_, SnapshotError>(plaintext),
{
}

/// Whether an encoded envelope is short enough to store or to read.
pub fn check_encoded_len(encoded_len: usize) -> (res: Result<(), SnapshotError>)
    ensures
        res == (if encoded_len > SNAPSHOT_MAX_ENVELOPE_BYTES {
            Err(SnapshotError::TooLarge)
        } else {
            Ok(())
        }),
        res is Ok <==> encoded_len <= 8_388_608,
{
    if encoded_len > SNAPSHOT_MAX_ENVELOPE_BYTES {
        Err(SnapshotError::TooLarge)
    } else {
        Ok(())
    }
}

/// The cipher key that the bytes are.
fn cipher_key(key: &[u8]) -> (res: Result<SecretKey, SnapshotError>)
    ensures
        match res {
            Ok(secret) => key@.len() == XCHACHA20_KEY_BYTES && secret@ == key@,
            Err(error) => key@.len() != XCHACHA20_KEY_BYTES && error == SnapshotError::InvalidKey,
        },
{
    if key.len() != XCHACHA20_KEY_BYTES {
        return Err(SnapshotError::InvalidKey);
    }
    let secret = SecretKey::from_slice(key, 0);
    assert(secret@ =~= key@);
    Ok(secret)
}

/// The envelope of a nonce and a ciphertext, both as base64 text.
pub fn wrap_ciphertext(nonce: String, ciphertext: String) -> (res: Envelope)
    ensures
        res@ == envelope_of(nonce@, ciphertext@),
{
    Envelope {
        document_type: "encrypted_workspace_snapshot".to_owned(),
        schema_version: SNAPSHOT_SCHEMA_VERSION,
        algorithm: SNAPSHOT_ALGORITHM.to_owned(),
        associated_data: SNAPSHOT_ASSOCIATED_DATA.to_owned(),
        nonce,
        ciphertext,
    }
}

/// Encrypt a snapshot's document using a freshly generated nonce.
pub fn encrypt_snapshot(plaintext: &[u8], key: &[u8]) -> (res: Result<Envelope, SnapshotError>)
    ensures
        exists|nonce: [u8; 24]|
            drawn_bytes(nonce) && #[trigger] encrypted(
                plaintext@,
                key@,
                nonce@,
                envelope_result(res),
            ),
{
    let nonce: [u8; 24] = random_bytes();
    encrypt_snapshot_with_nonce(plaintext, key, nonce)
}

/// Encrypt a snapshot's document with a caller-supplied nonce.
pub fn encrypt_snapshot_with_nonce(plaintext: &[u8], key: &[u8], nonce: [u8; 24]) -> (res: Result<
    Envelope,
    SnapshotError,
>)
    ensures
        encrypted(plaintext@, key@, nonce@, envelope_result(res)),
{
    if plaintext.len() > SNAPSHOT_MAX_PLAINTEXT_BYTES {
        return Err(SnapshotError::TooLarge);
    }
    let cipher = match cipher_key(key) {
        Ok(cipher) => cipher,
        Err(error) => return Err(error),
    };
    let ciphertext = match xchacha20poly1305_seal(
        cipher.as_array(),
        &nonce,
        SNAPSHOT_ASSOCIATED_DATA.as_bytes(),
        plaintext,
    ) {
        Some(ciphertext) => ciphertext,
        None => return Err(SnapshotError::AuthenticationFailed),
    };
    Ok(wrap_ciphertext(base64url_encode(&nonce), base64url_encode(ciphertext.as_slice())))
}

/// Whether an envelope is one of this version and algorithm.
pub fn check_envelope(envelope: &Envelope) -> (res: Result<(), SnapshotError>)
    ensures
        res == (if known_envelope(envelope@) {
            Ok(())
        } else {
            Err(SnapshotError::InvalidEnvelope)
        }),
{
    if !same_text(envelope.document_type.as_str(), "encrypted_workspace_snapshot")
        || envelope.schema_version != SNAPSHOT_SCHEMA_VERSION || !same_text(
        envelope.algorithm.as_str(),
        SNAPSHOT_ALGORITHM,
    ) || !same_text(envelope.associated_data.as_str(), SNAPSHOT_ASSOCIATED_DATA) {
        return Err(SnapshotError::InvalidEnvelope);
    }
    Ok(())
}

/// The bytes of a decoded text of exactly `N` bytes.
pub fn exact_bytes<const N: usize>(decoded: Option<Vec<u8>>) -> (res: Result<
    [u8; N],
    SnapshotError,
>)
    ensures
        match res {
            Ok(bytes) => decoded matches Some(all) && all@ == bytes@,
            Err(error) => match decoded {
                None => error == SnapshotError::InvalidEncoding,
                Some(all) => all@.len() != N && error == SnapshotError::InvalidEnvelope,
            },
        },
{
    match decoded {
        None => Err(SnapshotError::InvalidEncoding),
        Some(all) => if all.len() != N {
            Err(SnapshotError::InvalidEnvelope)
        } else {
            let bytes: [u8; N] = copy_array(all.as_slice(), 0);
            assert(bytes@ =~= all@);
            Ok(bytes)
        },
    }
}

/// The ciphertext that a decoded text is.
pub fn check_ciphertext(decoded: Option<Vec<u8>>) -> (res: Result<Vec<u8>, SnapshotError>)
    ensures
        plaintext_result(res) == ciphertext_outcome(
            match decoded {
                Some(bytes) => Some(bytes@),
                None => None,
            },
        ),
{
    match decoded {
        None => Err(SnapshotError::InvalidEncoding),
        Some(bytes) => if bytes.len() < AEAD_TAG_LEN || bytes.len() > SNAPSHOT_MAX_PLAINTEXT_BYTES
            + AEAD_TAG_LEN {
            Err(SnapshotError::TooLarge)
        } else {
            Ok(bytes)
        },
    }
}

/// The document of an opened ciphertext.
pub fn opened_document(opened: Option<Vec<u8>>) -> (res: Result<Vec<u8>, SnapshotError>)
    ensures
        plaintext_result(res) == (match opened {
            None => Err(SnapshotError::AuthenticationFailed),
            Some(plaintext) => if plaintext@.len() > SNAPSHOT_MAX_PLAINTEXT_BYTES {
                Err(SnapshotError::TooLarge)
            } else {
                Ok(plaintext@)
            },
        }),
{
    match opened {
        None => Err(SnapshotError::AuthenticationFailed),
        Some(plaintext) => if plaintext.len() > SNAPSHOT_MAX_PLAINTEXT_BYTES {
            Err(SnapshotError::TooLarge)
        } else {
            Ok(plaintext)
        },
    }
}

/// Open an envelope of `encoded_len` bytes, `None` where its bytes are none, and give its
/// document's bytes.
pub fn decrypt_snapshot(encoded_len: usize, parsed: Option<Envelope>, key: &[u8]) -> (res: Result<
    Vec<u8>,
    SnapshotError,
>)
    ensures
        plaintext_result(res) == decrypt_outcome(
            encoded_len as nat,
            optional_envelope(parsed),
            key@,
        ),
{
    match check_encoded_len(encoded_len) {
        Ok(()) => (),
        Err(error) => return Err(error),
    }
    let envelope = match parsed {
        Some(envelope) => envelope,
        None => return Err(SnapshotError::InvalidEnvelope),
    };
    match check_envelope(&envelope) {
        Ok(()) => (),
        Err(error) => return Err(error),
    }
    let nonce: [u8; 24] = match exact_bytes(base64url_decode(envelope.nonce.as_str())) {
        Ok(nonce) => nonce,
        Err(error) => return Err(error),
    };
    let ciphertext = match check_ciphertext(base64url_decode(envelope.ciphertext.as_str())) {
        Ok(ciphertext) => ciphertext,
        Err(error) => return Err(error),
    };
    let cipher = match cipher_key(key) {
        Ok(cipher) => cipher,
        Err(error) => return Err(error),
    };
    opened_document(
        xchacha20poly1305_open(
            cipher.as_array(),
            &nonce,
            SNAPSHOT_ASSOCIATED_DATA.as_bytes(),
            ciphertext.as_slice(),
        ),
    )
}

} // verus!
