use ftnl_desktop::workspace::{
    content_sha256_hex, ClipboardWorkspace, RetentionPolicy, Timestamp, WorkspaceAction,
};
use ftnl_desktop::workspace_snapshot::{
    check_ciphertext, check_encoded_len, check_envelope, check_timestamp, decode_snapshot,
    decrypt_snapshot, encode_snapshot, encrypt_snapshot, encrypt_snapshot_with_nonce, exact_bytes,
    format_timestamp, opened_document, parse_timestamp, wrap_ciphertext, Envelope, ItemWire,
    RetentionWire, SnapshotError, SnapshotWire, SNAPSHOT_MAX_ENVELOPE_BYTES,
    SNAPSHOT_MAX_PLAINTEXT_BYTES,
};
use serde_json::Value;
use uuid::Uuid;

fn at(day: u64) -> Timestamp {
    Timestamp {
        unix_nanos: i128::from(day) * 24 * 60 * 60 * 1_000_000_000,
    }
}

fn workspace() -> ClipboardWorkspace {
    let mut workspace = ClipboardWorkspace::default();
    workspace
        .apply(Uuid::new_v4().as_u128(), 0, WorkspaceAction::ResumeCapture, at(1))
        .unwrap();
    workspace
        .apply(
            Uuid::new_v4().as_u128(),
            1,
            WorkspaceAction::IngestText {
                item_id: Uuid::parse_str("00000000-0000-4000-8000-000000000001")
                    .unwrap()
                    .as_u128(),
                text: "hello".to_owned(),
                content_sha256: content_sha256_hex("hello"),
                byte_size: 5,
                captured_at: at(1),
                source_fingerprint: None,
            },
            at(1),
        )
        .unwrap();
    workspace
}

fn object(fields: Vec<(&str, Value)>) -> Value {
    let mut map = serde_json::Map::new();
    for (name, value) in fields {
        map.insert(name.to_owned(), value);
    }
    Value::Object(map)
}

fn text(value: &str) -> Value {
    Value::String(value.to_owned())
}

fn wire_to_json(wire: &SnapshotWire) -> Vec<u8> {
    let items = wire
        .items
        .iter()
        .map(|item| {
            let mut fields = vec![
                ("item_id", text(&item.item_id)),
                ("content_kind", text(&item.content_kind)),
                ("text", text(&item.text)),
                ("content_sha256", text(&item.content_sha256)),
                ("byte_size", Value::from(item.byte_size)),
                ("captured_at", text(&item.captured_at)),
                ("is_pinned", Value::from(item.is_pinned)),
            ];
            if let Some(source) = &item.source_fingerprint {
                fields.push(("source_fingerprint", text(source)));
            }
            object(fields)
        })
        .collect::<Vec<_>>();
    let document = object(vec![
        ("document_type", text(&wire.document_type)),
        ("schema_version", Value::from(wire.schema_version)),
        ("revision", Value::from(wire.revision)),
        ("capture_state", text(&wire.capture_state)),
        (
            "retention",
            object(vec![
                ("max_items", Value::from(wire.retention.max_items)),
                ("max_age_days", Value::from(wire.retention.max_age_days)),
                ("deduplicate", Value::from(wire.retention.deduplicate)),
            ]),
        ),
        ("search_query", text(&wire.search_query)),
        (
            "excluded_source_fingerprints",
            Value::Array(
                wire.excluded_source_fingerprints
                    .iter()
                    .map(|value| text(value))
                    .collect(),
            ),
        ),
        ("items", Value::Array(items)),
    ]);
    serde_json::to_vec(&document).unwrap()
}

fn string(value: &Value, name: &str) -> Option<String> {
    Some(value.get(name)?.as_str()?.to_owned())
}

fn json_to_wire(bytes: &[u8]) -> Option<SnapshotWire> {
    let value: Value = serde_json::from_slice(bytes).ok()?;
    let retention = value.get("retention")?;
    let mut items = Vec::new();
    for item in value.get("items")?.as_array()? {
        items.push(ItemWire {
            item_id: string(item, "item_id")?,
            content_kind: string(item, "content_kind")?,
            text: string(item, "text")?,
            content_sha256: string(item, "content_sha256")?,
            byte_size: item.get("byte_size")?.as_u64()? as usize,
            captured_at: string(item, "captured_at")?,
            is_pinned: item.get("is_pinned")?.as_bool()?,
            source_fingerprint: string(item, "source_fingerprint"),
        });
    }
    let mut excluded = Vec::new();
    for fingerprint in value.get("excluded_source_fingerprints")?.as_array()? {
        excluded.push(fingerprint.as_str()?.to_owned());
    }
    Some(SnapshotWire {
        document_type: string(&value, "document_type")?,
        schema_version: u8::try_from(value.get("schema_version")?.as_u64()?).ok()?,
        revision: value.get("revision")?.as_u64()?,
        capture_state: string(&value, "capture_state")?,
        retention: RetentionWire {
            max_items: retention.get("max_items")?.as_u64()? as usize,
            max_age_days: u16::try_from(retention.get("max_age_days")?.as_u64()?).ok()?,
            deduplicate: retention.get("deduplicate")?.as_bool()?,
        },
        search_query: string(&value, "search_query")?,
        excluded_source_fingerprints: excluded,
        items,
    })
}

fn envelope_to_json(envelope: &Envelope) -> Vec<u8> {
    serde_json::to_vec(&object(vec![
        ("document_type", text(&envelope.document_type)),
        ("schema_version", Value::from(envelope.schema_version)),
        ("algorithm", text(&envelope.algorithm)),
        ("associated_data", text(&envelope.associated_data)),
        ("nonce", text(&envelope.nonce)),
        ("ciphertext", text(&envelope.ciphertext)),
    ]))
    .unwrap()
}

fn json_to_envelope(bytes: &[u8]) -> Option<Envelope> {
    let value: Value = serde_json::from_slice(bytes).ok()?;
    Some(Envelope {
        document_type: string(&value, "document_type")?,
        schema_version: u8::try_from(value.get("schema_version")?.as_u64()?).ok()?,
        algorithm: string(&value, "algorithm")?,
        associated_data: string(&value, "associated_data")?,
        nonce: string(&value, "nonce")?,
        ciphertext: string(&value, "ciphertext")?,
    })
}

fn seal(workspace: &ClipboardWorkspace, key: &[u8], nonce: [u8; 24]) -> Result<Vec<u8>, SnapshotError> {
    let plaintext = wire_to_json(&encode_snapshot(workspace)?);
    let encoded = envelope_to_json(&encrypt_snapshot_with_nonce(&plaintext, key, nonce)?);
    check_encoded_len(encoded.len())?;
    Ok(encoded)
}

fn open(encoded: &[u8], key: &[u8], now: Timestamp) -> Result<ClipboardWorkspace, SnapshotError> {
    let plaintext = decrypt_snapshot(encoded.len(), json_to_envelope(encoded), key)?;
    decode_snapshot(json_to_wire(&plaintext), now)
}

#[test]
fn encrypted_snapshot_round_trips_and_reapplies_retention() {
    let key = [0x11_u8; 32];
    let encoded = seal(&workspace(), &key, [0x22_u8; 24]).unwrap();
    let decoded = open(&encoded, &key, at(1)).unwrap();
    assert_eq!(decoded.items().len(), 1);
    assert_eq!(decoded.items()[0].text, "hello");
    assert_eq!(decoded.revision(), 2);
}

#[test]
fn wrong_key_and_tampering_never_reveal_plaintext() {
    let key = [0x11_u8; 32];
    let mut encoded = seal(&workspace(), &key, [0x22_u8; 24]).unwrap();
    assert_eq!(
        open(&encoded, &[0x33_u8; 32], at(1)).unwrap_err().message(),
        "the snapshot could not be authenticated"
    );
    let last = encoded.len() - 1;
    encoded[last] = if encoded[last] == b'a' { b'b' } else { b'a' };
    assert!(matches!(
        open(&encoded, &key, at(1)),
        Err(SnapshotError::InvalidEnvelope)
            | Err(SnapshotError::InvalidEncoding)
            | Err(SnapshotError::AuthenticationFailed)
    ));
    assert!(!String::from_utf8_lossy(&encoded).contains("hello"));
}

#[test]
fn keys_and_envelopes_are_bounded() {
    let plaintext = wire_to_json(&encode_snapshot(&workspace()).unwrap());
    assert!(matches!(
        encrypt_snapshot(&plaintext, &[0_u8; 31]),
        Err(SnapshotError::InvalidKey)
    ));
    assert!(matches!(
        open(b"{}", &[0_u8; 32], at(1)),
        Err(SnapshotError::InvalidEnvelope)
    ));
}

#[test]
fn a_restored_workspace_is_the_stored_one_without_its_commands() {
    let mut original = workspace();
    let fingerprint = format!("sha256:{}", "b".repeat(64));
    for action in [
        WorkspaceAction::SetSearch("hel".into()),
        WorkspaceAction::SetSourceExclusions(vec![fingerprint.clone()]),
        WorkspaceAction::SetRetention(RetentionPolicy {
            max_items: 3,
            max_age_days: 2,
            deduplicate: false,
        }),
        WorkspaceAction::PauseCapture,
    ] {
        let revision = original.revision();
        original
            .apply(Uuid::new_v4().as_u128(), revision, action, at(1))
            .unwrap();
    }
    let restored = decode_snapshot(Some(encode_snapshot(&original).unwrap()), at(1)).unwrap();
    assert_eq!(restored.revision(), original.revision());
    assert_eq!(restored.capture_state(), original.capture_state());
    assert_eq!(restored.retention(), original.retention());
    assert_eq!(restored.search_query(), "hel");
    assert_eq!(*restored.excluded_source_fingerprints(), vec![fingerprint]);
    assert_eq!(restored.items(), original.items());

    let later = decode_snapshot(Some(encode_snapshot(&original).unwrap()), at(4)).unwrap();
    assert!(later.items().is_empty());
}

#[test]
fn documents_are_read_strictly() {
    let wire = || encode_snapshot(&workspace()).unwrap();
    let read = |wire: SnapshotWire| decode_snapshot(Some(wire), at(1));
    assert!(read(wire()).is_ok());
    assert_eq!(wire().items[0].item_id, "00000000-0000-4000-8000-000000000001");
    assert_eq!(wire().items[0].captured_at, "1970-01-02T00:00:00Z");
    assert_eq!(decode_snapshot(None, at(1)), Err(SnapshotError::InvalidEnvelope));

    let mut other_type = wire();
    other_type.document_type = "other".into();
    assert_eq!(read(other_type), Err(SnapshotError::InvalidEnvelope));
    let mut other_version = wire();
    other_version.schema_version = 2;
    assert_eq!(read(other_version), Err(SnapshotError::InvalidEnvelope));

    let mut capture = wire();
    capture.capture_state = "Active".into();
    let mut twice = wire();
    twice.excluded_source_fingerprints = vec![format!("sha256:{}", "b".repeat(64)); 2];
    let mut kind = wire();
    kind.items[0].content_kind = "image".into();
    let mut no_id = wire();
    no_id.items[0].item_id = "no identifier".into();
    let mut braced = wire();
    braced.items[0].item_id = "{00000000-0000-4000-8000-000000000001}".into();
    let mut upper = wire();
    upper.items[0].item_id = "00000000-0000-4000-8000-00000000000A".into();
    let mut before_epoch = wire();
    before_epoch.items[0].captured_at = "1969-12-31T23:59:59Z".into();
    let mut no_time = wire();
    no_time.items[0].captured_at = "yesterday".into();
    let mut forged = wire();
    forged.items[0].text = "hullo".into();
    let mut policy = wire();
    policy.retention.max_items = 0;
    for refused in [
        capture, twice, kind, no_id, braced, upper, before_epoch, no_time, forged, policy,
    ] {
        assert_eq!(read(refused), Err(SnapshotError::InvalidWorkspace));
    }
}

#[test]
fn envelopes_are_read_strictly() {
    let key = [0x11_u8; 32];
    let sealed = || encrypt_snapshot_with_nonce(b"document", &key, [0x22_u8; 24]).unwrap();
    let opened = |envelope: Envelope| decrypt_snapshot(100, Some(envelope), &key);
    assert_eq!(opened(sealed()), Ok(b"document".to_vec()));
    assert_eq!(sealed().nonce, "IiIiIiIiIiIiIiIiIiIiIiIiIiIiIiIi");
    assert_eq!(sealed().algorithm, "xchacha20-poly1305");
    assert_eq!(sealed().associated_data, "file-tunnel.desktop-workspace.v1");
    assert_eq!(sealed().document_type, "encrypted_workspace_snapshot");
    assert_eq!(sealed().schema_version, 1);

    assert_eq!(
        decrypt_snapshot(SNAPSHOT_MAX_ENVELOPE_BYTES + 1, Some(sealed()), &key),
        Err(SnapshotError::TooLarge)
    );
    assert_eq!(
        decrypt_snapshot(100, Some(sealed()), &key[..31]),
        Err(SnapshotError::InvalidKey)
    );
    assert_eq!(
        decrypt_snapshot(100, None, &key),
        Err(SnapshotError::InvalidEnvelope)
    );
    let mut algorithm = sealed();
    algorithm.algorithm = "none".into();
    assert_eq!(check_envelope(&algorithm), Err(SnapshotError::InvalidEnvelope));
    assert_eq!(opened(algorithm), Err(SnapshotError::InvalidEnvelope));
    let mut not_base64 = sealed();
    not_base64.nonce = "!".into();
    assert_eq!(opened(not_base64), Err(SnapshotError::InvalidEncoding));
    let mut short_nonce = sealed();
    short_nonce.nonce = "IiIi".into();
    assert_eq!(opened(short_nonce), Err(SnapshotError::InvalidEnvelope));
    let mut padded = sealed();
    padded.ciphertext.push('=');
    assert_eq!(opened(padded), Err(SnapshotError::InvalidEncoding));
    let mut short = sealed();
    short.ciphertext = "IiIi".into();
    assert_eq!(opened(short), Err(SnapshotError::TooLarge));
    let mut other_nonce = sealed();
    other_nonce.nonce = "JiIiIiIiIiIiIiIiIiIiIiIiIiIiIiIi".into();
    assert_eq!(opened(other_nonce), Err(SnapshotError::AuthenticationFailed));
}

#[test]
fn large_documents_are_refused() {
    let key = [0x11_u8; 32];
    let document = vec![0_u8; SNAPSHOT_MAX_PLAINTEXT_BYTES + 1];
    assert_eq!(encrypt_snapshot(&document, &key), Err(SnapshotError::TooLarge));
    assert_eq!(check_encoded_len(SNAPSHOT_MAX_ENVELOPE_BYTES), Ok(()));
    assert_eq!(
        check_encoded_len(SNAPSHOT_MAX_ENVELOPE_BYTES + 1),
        Err(SnapshotError::TooLarge)
    );
}

#[test]
fn each_step_of_opening_reports_its_own_error() {
    assert_eq!(exact_bytes::<2>(Some(vec![1, 2])), Ok([1, 2]));
    assert_eq!(exact_bytes::<2>(Some(vec![1])), Err(SnapshotError::InvalidEnvelope));
    assert_eq!(exact_bytes::<2>(None), Err(SnapshotError::InvalidEncoding));
    assert_eq!(check_ciphertext(Some(vec![7; 16])), Ok(vec![7; 16]));
    assert_eq!(check_ciphertext(Some(vec![7; 15])), Err(SnapshotError::TooLarge));
    assert_eq!(check_ciphertext(None), Err(SnapshotError::InvalidEncoding));
    assert_eq!(opened_document(Some(vec![1])), Ok(vec![1]));
    assert_eq!(opened_document(None), Err(SnapshotError::AuthenticationFailed));
    let envelope = wrap_ciphertext("n".into(), "c".into());
    assert_eq!(envelope.nonce, "n");
    assert_eq!(envelope.ciphertext, "c");
    assert_eq!(check_envelope(&envelope), Ok(()));
}

#[test]
fn fresh_nonces_differ() {
    let key = [0x11_u8; 32];
    let first = encrypt_snapshot(b"document", &key).unwrap();
    let second = encrypt_snapshot(b"document", &key).unwrap();
    assert_ne!(first.nonce, second.nonce);
    assert_ne!(first.ciphertext, second.ciphertext);
    assert_eq!(
        decrypt_snapshot(100, Some(first), &key),
        Ok(b"document".to_vec())
    );
}

#[test]
fn timestamps_are_written_to_the_nanosecond() {
    let moment = Timestamp { unix_nanos: 1_546_300_800_123_456_789 };
    assert_eq!(format_timestamp(moment).unwrap(), "2019-01-01T00:00:00.123456789Z");
    assert_eq!(parse_timestamp("2019-01-01T00:00:00.123456789Z"), Ok(moment));
    assert_eq!(parse_timestamp("2019-01-01T01:00:00.123456789+01:00"), Ok(moment));
    assert_eq!(format_timestamp(at(0)).unwrap(), "1970-01-01T00:00:00Z");
    let end = Timestamp { unix_nanos: 253_402_300_800_000_000_000 };
    let last = Timestamp { unix_nanos: 253_402_300_799_999_999_999 };
    assert_eq!(format_timestamp(end), Err(SnapshotError::InvalidWorkspace));
    assert_eq!(format_timestamp(last).unwrap(), "9999-12-31T23:59:59.999999999Z");
    assert_eq!(
        format_timestamp(Timestamp { unix_nanos: -1 }),
        Err(SnapshotError::InvalidWorkspace)
    );
    assert_eq!(
        format_timestamp(Timestamp { unix_nanos: i128::MAX }),
        Err(SnapshotError::InvalidWorkspace)
    );
    assert_eq!(check_timestamp(Some(5)), Ok(Timestamp { unix_nanos: 5 }));
    assert_eq!(check_timestamp(Some(-5)), Err(SnapshotError::InvalidWorkspace));
    assert_eq!(check_timestamp(None), Err(SnapshotError::InvalidWorkspace));
}
