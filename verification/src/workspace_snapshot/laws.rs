//! The stored documents field by field, with their limits in numbers.
use crate::crypto::{xchacha20poly1305_opened, xchacha20poly1305_sealed};
use crate::formats::{
    base64url_bytes, base64url_text, rfc3339_nanos, rfc3339_text, uuid_of_text, uuid_text,
};
use crate::workspace::command_laws::{kept_by_age_and_count, retention_goes_by_age_and_count};
use crate::workspace::model::{valid_parts, ItemView, WorkspaceView};
use crate::workspace::RetentionPolicy;
use crate::workspace_snapshot::{
    decode_outcome, decrypt_outcome, encodes, encrypt_outcome, encrypted, envelope_result,
    item_of_wire, items_of_wires, optional_envelope, optional_wire, plaintext_result, snapshot_error_text,
    timestamp_of, writable_items, writable_time, Envelope, EnvelopeView, ItemWireView,
    SnapshotError, SnapshotWire, WireView,
};
use vstd::prelude::*;
use vstd::utf8::*;

verus! {

/// Moments from the Unix epoch to the end of the year 9999 can be written; none before the epoch
/// is read.
pub proof fn moments_lie_between_the_epoch_and_the_year_10000(nanos: i128)
    ensures
        writable_time(nanos) <==> 0 <= nanos < 253_402_300_800_000_000_000,
        timestamp_of(Some(nanos)) == (if nanos >= 0 { Some(nanos) } else { None }),
        timestamp_of(None) is None,
{
}

/// A history can be written where every item's time can.
pub proof fn histories_are_written_where_every_time_can_be(items: Seq<ItemView>)
    ensures
        writable_items(items) <==> forall|i: int|
            0 <= i < items.len() ==> 0 <= (#[trigger] items[i]).captured_at
                < 253_402_300_800_000_000_000,
{
    if writable_items(items) {
        assert forall|i: int| 0 <= i < items.len() implies 0 <= (#[trigger] items[i]).captured_at
            < 253_402_300_800_000_000_000 by {
            assert(writable_time(items[i].captured_at));
        }
    }
}

/// A workspace's document holds its revision, state, policy, search, exclusions and items, each
/// under its own name; the remembered commands stay out.
pub proof fn documents_hold_the_workspace(w: WorkspaceView, wire: WireView)
    requires
        encodes(w, wire),
    ensures
        wire.document_type == "workspace_snapshot"@,
        wire.schema_version == 1,
        wire.revision == w.revision,
        w.capture_state is Active ==> wire.capture_state == "active"@,
        w.capture_state is Paused ==> wire.capture_state == "paused"@,
        wire.retention.max_items == w.retention.max_items,
        wire.retention.max_age_days == w.retention.max_age_days,
        wire.retention.deduplicate == w.retention.deduplicate,
        wire.search_query == w.search_query,
        forall|value: Seq<char>| #[trigger]
            wire.excluded.contains(value) <==> w.excluded.contains(value),
        wire.items.len() == w.items.len(),
        forall|i: int|
            0 <= i < w.items.len() ==> {
                let record = #[trigger] wire.items[i];
                let item = w.items[i];
                &&& record.item_id == uuid_text(item.item_id)
                &&& record.content_kind == "text"@
                &&& record.text == item.text
                &&& record.content_sha256 == item.content_sha256
                &&& record.byte_size == item.byte_size
                &&& Some(record.captured_at) == rfc3339_text(item.captured_at)
                &&& record.is_pinned == item.is_pinned
                &&& record.source_fingerprint == item.source_fingerprint
            },
{
    assert forall|value: Seq<char>| #[trigger] wire.excluded.contains(value)
        <==> w.excluded.contains(value) by {
        assert(wire.excluded.to_set().contains(value) <==> wire.excluded.contains(value));
    }
    assert forall|i: int| 0 <= i < w.items.len() implies Some(
        (#[trigger] wire.items[i]).captured_at,
    ) == rfc3339_text(w.items[i].captured_at) by {
        assert(crate::workspace_snapshot::item_reads_back(w.items[i]));
    }
}

/// An item's record is read where its kind is text, its identifier is the canonical text of one,
/// and its time is one from the epoch on; the item is what the record says.
pub proof fn records_are_read_as_written(record: ItemWireView)
    ensures
        item_of_wire(record) is Some <==> {
            &&& record.content_kind == "text"@
            &&& uuid_of_text(record.item_id) matches Some(id) && uuid_text(id) == record.item_id
            &&& rfc3339_nanos(record.captured_at) matches Some(nanos) && nanos >= 0
        },
        item_of_wire(record) matches Some(item) ==> {
            &&& Some(item.item_id) == uuid_of_text(record.item_id)
            &&& item.text == record.text
            &&& item.content_sha256 == record.content_sha256
            &&& item.byte_size == record.byte_size
            &&& Some(item.captured_at) == rfc3339_nanos(record.captured_at)
            &&& item.is_pinned == record.is_pinned
            &&& item.source_fingerprint == record.source_fingerprint
        },
{
}

/// A document is read only where it is a workspace snapshot of version 1. It is then refused where
/// its state is no known word, an exclusion stands twice, an item cannot be read, or its parts
/// are not such as commands could have made; otherwise the workspace is what it says, with
/// retention applied and no command remembered.
pub proof fn documents_are_read_strictly(wire: WireView, now: i128)
    ensures
        decode_outcome(None, now) == Err::<WorkspaceView, _>(SnapshotError::InvalidEnvelope),
        ({
            let outcome = decode_outcome(Some(wire), now);
            let policy = RetentionPolicy {
                max_items: wire.retention.max_items,
                max_age_days: wire.retention.max_age_days,
                deduplicate: wire.retention.deduplicate,
            };
            let items = Seq::new(
                wire.items.len(),
                |i: int| item_of_wire(wire.items[i])->Some_0,
            );
            if wire.document_type != "workspace_snapshot"@ || wire.schema_version != 1 {
                outcome == Err::<WorkspaceView, _>(SnapshotError::InvalidEnvelope)
            } else if (wire.capture_state == "active"@ || wire.capture_state == "paused"@) && (
            forall|i: int, j: int|
                0 <= i < j < wire.excluded.len() ==> #[trigger] wire.excluded[i]
                    != #[trigger] wire.excluded[j]) && (forall|i: int|
                0 <= i < wire.items.len() ==> item_of_wire(#[trigger] wire.items[i]) is Some)
                && valid_parts(policy, wire.search_query, wire.excluded, items) {
                outcome matches Ok(w) && {
                    &&& w.revision == wire.revision
                    &&& w.capture_state is Active <==> wire.capture_state == "active"@
                    &&& w.retention == policy
                    &&& w.search_query == wire.search_query
                    &&& forall|value: Seq<char>| #[trigger]
                        w.excluded.contains(value) <==> wire.excluded.contains(value)
                    &&& kept_by_age_and_count(items, w.items, policy, now)
                    &&& w.processed.len() == 0
                }
            } else {
                outcome == Err::<WorkspaceView, _>(SnapshotError::InvalidWorkspace)
            }
        }),
{
    let policy = RetentionPolicy {
        max_items: wire.retention.max_items,
        max_age_days: wire.retention.max_age_days,
        deduplicate: wire.retention.deduplicate,
    };
    let items = Seq::new(wire.items.len(), |i: int| item_of_wire(wire.items[i])->Some_0);
    assert(items_of_wires(wire.items) =~= items);
    retention_goes_by_age_and_count(items, policy, now);
    reveal_strlit("active");
    reveal_strlit("paused");
    assert("active"@[0] == 'a');
    assert("paused"@[0] == 'p');
    if forall|i: int, j: int|
        0 <= i < j < wire.excluded.len() ==> #[trigger] wire.excluded[i]
            != #[trigger] wire.excluded[j] {
        assert(wire.excluded.no_duplicates());
    }
}

/// A document of at most 6,291,456 bytes is sealed under a key of 32 bytes. Its envelope names its
/// type, version, algorithm and associated data, and holds the nonce and the ciphertext in
/// base64.
pub proof fn envelopes_are_put_together(plaintext: Seq<u8>, key: Seq<u8>, nonce: Seq<u8>)
    ensures
        ({
            let outcome = encrypt_outcome(plaintext, key, nonce);
            if plaintext.len() > 6_291_456 {
                outcome == Err::<EnvelopeView, _>(SnapshotError::TooLarge)
            } else if key.len() != 32 {
                outcome == Err::<EnvelopeView, _>(SnapshotError::InvalidKey)
            } else {
                outcome matches Ok(envelope) && {
                    &&& envelope.document_type == "encrypted_workspace_snapshot"@
                    &&& envelope.schema_version == 1
                    &&& envelope.algorithm == "xchacha20-poly1305"@
                    &&& envelope.associated_data == "file-tunnel.desktop-workspace.v1"@
                    &&& envelope.nonce == base64url_text(nonce)
                    &&& envelope.ciphertext == base64url_text(
                        xchacha20poly1305_sealed(
                            key,
                            nonce,
                            encode_utf8("file-tunnel.desktop-workspace.v1"@),
                            plaintext,
                        ),
                    )
                }
            }
        }),
{
}

/// An envelope of at most 8,388,608 bytes is opened where it names this type, version, algorithm
/// and associated data, its nonce has 24 bytes, its ciphertext is that of at most 6,291,456, the
/// key has 32, and the ciphertext authenticates. The first of these that fails is the error.
pub proof fn envelopes_are_opened_strictly(
    encoded_len: nat,
    envelope: EnvelopeView,
    key: Seq<u8>,
)
    ensures
        encoded_len > 8_388_608 ==> decrypt_outcome(encoded_len, Some(envelope), key) == Err::<
            Seq<u8>,
            _,
        >(SnapshotError::TooLarge) && decrypt_outcome(encoded_len, None, key) == Err::<Seq<u8>, _>(
            SnapshotError::TooLarge,
        ),
        encoded_len <= 8_388_608 ==> decrypt_outcome(encoded_len, None, key) == Err::<Seq<u8>, _>(
            SnapshotError::InvalidEnvelope,
        ),
        encoded_len <= 8_388_608 ==> {
            let outcome = decrypt_outcome(encoded_len, Some(envelope), key);
            let nonce = base64url_bytes(envelope.nonce);
            let ciphertext = base64url_bytes(envelope.ciphertext);
            if envelope.document_type != "encrypted_workspace_snapshot"@ || envelope.schema_version
                != 1 || envelope.algorithm != "xchacha20-poly1305"@ || envelope.associated_data
                != "file-tunnel.desktop-workspace.v1"@ {
                outcome == Err::<Seq<u8>, _>(SnapshotError::InvalidEnvelope)
            } else if nonce is None {
                outcome == Err::<Seq<u8>, _>(SnapshotError::InvalidEncoding)
            } else if nonce->Some_0.len() != 24 {
                outcome == Err::<Seq<u8>, _>(SnapshotError::InvalidEnvelope)
            } else if ciphertext is None {
                outcome == Err::<Seq<u8>, _>(SnapshotError::InvalidEncoding)
            } else if ciphertext->Some_0.len() < 16 || ciphertext->Some_0.len() > 6_291_472 {
                outcome == Err::<Seq<u8>, _>(SnapshotError::TooLarge)
            } else if key.len() != 32 {
                outcome == Err::<Seq<u8>, _>(SnapshotError::InvalidKey)
            } else {
                match xchacha20poly1305_opened(
                    key,
                    nonce->Some_0,
                    encode_utf8("file-tunnel.desktop-workspace.v1"@),
                    ciphertext->Some_0,
                ) {
                    Some(plaintext) => outcome == Ok::<_, SnapshotError>(plaintext),
                    None => outcome == Err::<Seq<u8>, _>(SnapshotError::AuthenticationFailed),
                }
            }
        },
{
    let known = crate::workspace_snapshot::envelope_of(envelope.nonce, envelope.ciphertext);
    if envelope.document_type == "encrypted_workspace_snapshot"@ && envelope.schema_version == 1
        && envelope.algorithm == "xchacha20-poly1305"@ && envelope.associated_data
        == "file-tunnel.desktop-workspace.v1"@ {
        assert(envelope =~= known);
    }
}

/// Every refusal has its own sentence.
pub proof fn snapshot_refusals_are_named(error: SnapshotError)
    ensures
        snapshot_error_text(error) == (match error {
            SnapshotError::InvalidKey => "the snapshot key is invalid",
            SnapshotError::InvalidEnvelope => "the snapshot envelope is invalid",
            SnapshotError::TooLarge => "the snapshot is too large",
            SnapshotError::InvalidEncoding => "the snapshot encoding is invalid",
            SnapshotError::AuthenticationFailed => "the snapshot could not be authenticated",
            SnapshotError::InvalidWorkspace => "the workspace snapshot is invalid",
        })@,
{
}

/// Documents and envelopes are seen field by field.
pub proof fn documents_are_seen_as_they_are(wire: SnapshotWire, envelope: Envelope, i: int)
    ensures
        wire@.document_type == wire.document_type@,
        wire@.schema_version == wire.schema_version,
        wire@.revision == wire.revision,
        wire@.capture_state == wire.capture_state@,
        wire@.retention == wire.retention,
        wire@.search_query == wire.search_query@,
        wire@.excluded.len() == wire.excluded_source_fingerprints@.len(),
        0 <= i < wire@.excluded.len() ==> wire@.excluded[i]
            == wire.excluded_source_fingerprints@[i]@,
        wire@.items.len() == wire.items@.len(),
        0 <= i < wire@.items.len() ==> {
            let seen = wire@.items[i];
            let record = wire.items@[i];
            &&& seen.item_id == record.item_id@
            &&& seen.content_kind == record.content_kind@
            &&& seen.text == record.text@
            &&& seen.content_sha256 == record.content_sha256@
            &&& seen.byte_size == record.byte_size
            &&& seen.captured_at == record.captured_at@
            &&& seen.is_pinned == record.is_pinned
            &&& match record.source_fingerprint {
                Some(value) => seen.source_fingerprint == Some(value@),
                None => seen.source_fingerprint is None,
            }
        },
        envelope@.document_type == envelope.document_type@,
        envelope@.schema_version == envelope.schema_version,
        envelope@.algorithm == envelope.algorithm@,
        envelope@.associated_data == envelope.associated_data@,
        envelope@.nonce == envelope.nonce@,
        envelope@.ciphertext == envelope.ciphertext@,
        optional_wire(Some(wire)) == Some(wire@),
        optional_wire(None) is None,
        optional_envelope(Some(envelope)) == Some(envelope@),
        optional_envelope(None) is None,
{
}

/// Results are seen as they are.
pub proof fn snapshot_results_are_seen_as_they_are(
    envelope: Result<Envelope, SnapshotError>,
    plaintext: Result<Vec<u8>, SnapshotError>,
)
    ensures
        match envelope {
            Ok(value) => envelope_result(envelope) == Ok::<_, SnapshotError>(value@),
            Err(error) => envelope_result(envelope) == Err::<EnvelopeView, _>(error),
        },
        match plaintext {
            Ok(value) => plaintext_result(plaintext) == Ok::<_, SnapshotError>(value@),
            Err(error) => plaintext_result(plaintext) == Err::<Seq<u8>, _>(error),
        },
{
}

/// Encrypting gives its outcome, whichever envelope it makes.
pub proof fn snapshot_encryptions_give_their_outcomes(
    plaintext: Seq<u8>,
    key: Seq<u8>,
    nonce: Seq<u8>,
    outcome: Result<EnvelopeView, SnapshotError>,
)
    requires
        encrypted(plaintext, key, nonce, outcome),
    ensures
        outcome == encrypt_outcome(plaintext, key, nonce),
{
}

} // verus!
