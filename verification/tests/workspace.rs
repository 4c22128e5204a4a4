use ftnl_desktop::workspace::{
    content_sha256_hex, is_source_fingerprint, query_matches, sorted_texts, CaptureState,
    ClipboardItem, ClipboardWorkspace, RetentionPolicy, Timestamp, WorkspaceAction,
    WorkspaceError, DESKTOP_FEATURE_IDS,
};
use uuid::Uuid;

fn at(day: u64) -> Timestamp {
    Timestamp {
        unix_nanos: i128::from(day) * 24 * 60 * 60 * 1_000_000_000,
    }
}

fn fresh() -> u128 {
    Uuid::new_v4().as_u128()
}

fn apply(
    workspace: &mut ClipboardWorkspace,
    action: WorkspaceAction,
    now: Timestamp,
) -> Result<(), WorkspaceError> {
    workspace.apply(fresh(), workspace.revision(), action, now)
}

fn ingest(item_id: u128, text: &str, captured_at: Timestamp) -> WorkspaceAction {
    WorkspaceAction::IngestText {
        item_id,
        text: text.into(),
        content_sha256: content_sha256_hex(text),
        byte_size: text.len(),
        captured_at,
        source_fingerprint: None,
    }
}

#[test]
fn capture_is_explicit_and_revision_conflicts_do_not_mutate() {
    let mut workspace = ClipboardWorkspace::default();
    assert_eq!(workspace.capture_state(), CaptureState::Paused);
    assert_eq!(
        apply(&mut workspace, ingest(fresh(), "one", at(1)), at(1)),
        Err(WorkspaceError::CapturePaused)
    );
    assert_eq!(workspace.revision(), 0);

    apply(&mut workspace, WorkspaceAction::ResumeCapture, at(1)).unwrap();
    let before = workspace.clone();
    assert_eq!(
        workspace.apply(fresh(), 0, WorkspaceAction::PauseCapture, at(1)),
        Err(WorkspaceError::RevisionConflict)
    );
    assert_eq!(workspace, before);
}

#[test]
fn deduplication_moves_existing_content_and_preserves_pin() {
    let mut workspace = ClipboardWorkspace::default();
    apply(&mut workspace, WorkspaceAction::ResumeCapture, at(1)).unwrap();
    let first = fresh();
    apply(&mut workspace, ingest(first, "same text", at(1)), at(1)).unwrap();
    apply(&mut workspace, WorkspaceAction::PinItem(first), at(1)).unwrap();
    apply(
        &mut workspace,
        ingest(fresh(), "same text", at(2)),
        at(2),
    )
    .unwrap();

    assert_eq!(workspace.items().len(), 1);
    assert_eq!(workspace.items()[0].item_id, first);
    assert!(workspace.items()[0].is_pinned);
    assert_eq!(workspace.items()[0].captured_at, at(2));
}

#[test]
fn search_is_case_insensitive_and_pins_sort_first() {
    let mut workspace = ClipboardWorkspace::default();
    apply(&mut workspace, WorkspaceAction::ResumeCapture, at(1)).unwrap();
    let first = fresh();
    let second = fresh();
    apply(&mut workspace, ingest(first, "Alpha result", at(1)), at(1)).unwrap();
    apply(
        &mut workspace,
        ingest(second, "another ALPHA", at(2)),
        at(2),
    )
    .unwrap();
    apply(&mut workspace, WorkspaceAction::PinItem(first), at(2)).unwrap();
    apply(
        &mut workspace,
        WorkspaceAction::SetSearch("alpha".into()),
        at(2),
    )
    .unwrap();

    let visible = workspace.visible_items();
    assert_eq!(visible.len(), 2);
    assert_eq!(visible[0].item_id, first);
    assert_eq!(visible[1].item_id, second);
}

#[test]
fn clear_and_retention_never_remove_pinned_items() {
    let mut workspace = ClipboardWorkspace::default();
    apply(&mut workspace, WorkspaceAction::ResumeCapture, at(1)).unwrap();
    let pinned = fresh();
    apply(&mut workspace, ingest(pinned, "pinned", at(1)), at(1)).unwrap();
    apply(&mut workspace, WorkspaceAction::PinItem(pinned), at(1)).unwrap();
    apply(
        &mut workspace,
        ingest(fresh(), "expired", at(1)),
        at(1),
    )
    .unwrap();
    apply(
        &mut workspace,
        WorkspaceAction::SetRetention(RetentionPolicy {
            max_items: 1,
            max_age_days: 1,
            deduplicate: true,
        }),
        at(3),
    )
    .unwrap();
    assert_eq!(workspace.items().len(), 1);
    assert_eq!(workspace.items()[0].item_id, pinned);

    apply(&mut workspace, WorkspaceAction::ClearUnpinned, at(3)).unwrap();
    assert_eq!(workspace.items().len(), 1);
}

#[test]
fn source_exclusions_and_hashes_fail_closed() {
    let mut workspace = ClipboardWorkspace::default();
    apply(&mut workspace, WorkspaceAction::ResumeCapture, at(1)).unwrap();
    let fingerprint = format!("sha256:{}", "a".repeat(64));
    apply(
        &mut workspace,
        WorkspaceAction::SetSourceExclusions(vec![fingerprint.clone()]),
        at(1),
    )
    .unwrap();
    let mut excluded = ingest(fresh(), "private", at(1));
    if let WorkspaceAction::IngestText {
        source_fingerprint, ..
    } = &mut excluded
    {
        *source_fingerprint = Some(fingerprint);
    }
    assert_eq!(
        apply(&mut workspace, excluded, at(1)),
        Err(WorkspaceError::ExcludedSource)
    );

    let invalid = WorkspaceAction::IngestText {
        item_id: fresh(),
        text: "text".into(),
        content_sha256: "0".repeat(64),
        byte_size: 4,
        captured_at: at(1),
        source_fingerprint: None,
    };
    assert_eq!(
        apply(&mut workspace, invalid, at(1)),
        Err(WorkspaceError::InvalidContentHash)
    );
}

#[test]
fn duplicate_commands_are_idempotently_rejected() {
    let mut workspace = ClipboardWorkspace::default();
    let command_id = fresh();
    workspace
        .apply(command_id, 0, WorkspaceAction::ResumeCapture, at(1))
        .unwrap();
    let before = workspace.clone();
    assert_eq!(
        workspace.apply(command_id, 1, WorkspaceAction::PauseCapture, at(1)),
        Err(WorkspaceError::DuplicateCommand)
    );
    assert_eq!(workspace, before);
}

#[test]
fn feature_identifiers_are_sorted_and_distinct() {
    let mut sorted = DESKTOP_FEATURE_IDS.to_vec();
    sorted.sort_unstable();
    sorted.dedup();
    assert_eq!(sorted, DESKTOP_FEATURE_IDS);
}

#[test]
fn content_hashes_are_sha256_in_lower_case_hex() {
    assert_eq!(
        content_sha256_hex("abc"),
        "ba7816bf8f01cfea414140de5dae2223b00361a396177a9cb410ff61f20015ad"
    );
    assert_eq!(
        content_sha256_hex(""),
        "e3b0c44298fc1c149afbf4c8996fb92427ae41e4649b934ca495991b7852b855"
    );
}

#[test]
fn fingerprints_are_prefixed_lower_case_hex() {
    assert!(is_source_fingerprint(&format!("sha256:{}", "0f".repeat(32))));
    assert!(!is_source_fingerprint(&format!("sha256:{}", "0F".repeat(32))));
    assert!(!is_source_fingerprint(&format!("sha512:{}", "0f".repeat(32))));
    assert!(!is_source_fingerprint(&format!("sha256:{}", "0f".repeat(31))));
    assert!(!is_source_fingerprint(""));
}

#[test]
fn every_command_that_is_refused_changes_nothing() {
    let mut workspace = ClipboardWorkspace::default();
    apply(&mut workspace, WorkspaceAction::ResumeCapture, at(1)).unwrap();
    apply(&mut workspace, ingest(7, "kept", at(1)), at(1)).unwrap();
    let before = workspace.clone();
    let policy = |max_items, max_age_days| {
        WorkspaceAction::SetRetention(RetentionPolicy {
            max_items,
            max_age_days,
            deduplicate: true,
        })
    };
    let mut wrong_size = ingest(8, "text", at(1));
    if let WorkspaceAction::IngestText { byte_size, .. } = &mut wrong_size {
        *byte_size = 5;
    }
    let mut bad_source = ingest(8, "text", at(1));
    if let WorkspaceAction::IngestText {
        source_fingerprint, ..
    } = &mut bad_source
    {
        *source_fingerprint = Some("sha256:".into());
    }
    for (action, error) in [
        (WorkspaceAction::SetSearch("é".repeat(257)), WorkspaceError::InvalidSearch),
        (WorkspaceAction::PinItem(9), WorkspaceError::ItemNotFound),
        (WorkspaceAction::UnpinItem(9), WorkspaceError::ItemNotFound),
        (WorkspaceAction::DeleteItem(9), WorkspaceError::ItemNotFound),
        (policy(0, 30), WorkspaceError::InvalidRetention),
        (policy(10_001, 30), WorkspaceError::InvalidRetention),
        (policy(250, 0), WorkspaceError::InvalidRetention),
        (policy(250, 366), WorkspaceError::InvalidRetention),
        (
            WorkspaceAction::SetSourceExclusions(vec!["sha256:".into()]),
            WorkspaceError::InvalidSourceFingerprint,
        ),
        (ingest(8, "", at(1)), WorkspaceError::InvalidContentSize),
        (ingest(8, &"x".repeat(65_537), at(1)), WorkspaceError::InvalidContentSize),
        (wrong_size, WorkspaceError::InvalidContentSize),
        (bad_source, WorkspaceError::InvalidSourceFingerprint),
    ] {
        assert_eq!(apply(&mut workspace, action, at(1)), Err(error));
        assert_eq!(workspace, before);
    }
}

#[test]
fn limits_are_inclusive() {
    let mut workspace = ClipboardWorkspace::default();
    apply(&mut workspace, WorkspaceAction::ResumeCapture, at(1)).unwrap();
    apply(&mut workspace, WorkspaceAction::SetSearch("é".repeat(256)), at(1)).unwrap();
    apply(&mut workspace, ingest(1, &"é".repeat(65_536), at(1)), at(1)).unwrap();
    apply(
        &mut workspace,
        WorkspaceAction::SetRetention(RetentionPolicy {
            max_items: 10_000,
            max_age_days: 365,
            deduplicate: false,
        }),
        at(366),
    )
    .unwrap();
    assert_eq!(workspace.items().len(), 1);
    apply(
        &mut workspace,
        WorkspaceAction::SetRetention(RetentionPolicy {
            max_items: 10_000,
            max_age_days: 365,
            deduplicate: false,
        }),
        Timestamp { unix_nanos: at(366).unix_nanos + 1 },
    )
    .unwrap();
    assert!(workspace.items().is_empty());
}

#[test]
fn retention_keeps_the_newest_and_what_lies_in_the_future() {
    let mut workspace = ClipboardWorkspace::default();
    apply(&mut workspace, WorkspaceAction::ResumeCapture, at(1)).unwrap();
    for number in 0..5u128 {
        apply(&mut workspace, ingest(number, &format!("item {number}"), at(9)), at(1)).unwrap();
    }
    apply(&mut workspace, WorkspaceAction::PinItem(0), at(1)).unwrap();
    apply(
        &mut workspace,
        WorkspaceAction::SetRetention(RetentionPolicy {
            max_items: 2,
            max_age_days: 1,
            deduplicate: true,
        }),
        at(1),
    )
    .unwrap();
    let ids: Vec<u128> = workspace.items().iter().map(|item| item.item_id).collect();
    assert_eq!(ids, vec![4, 3, 0]);
    apply(&mut workspace, WorkspaceAction::UnpinItem(0), at(1)).unwrap();
    let ids: Vec<u128> = workspace.items().iter().map(|item| item.item_id).collect();
    assert_eq!(ids, vec![4, 3]);
}

#[test]
fn retention_selects_in_the_order_of_the_history() {
    let mut workspace = ClipboardWorkspace::default();
    apply(&mut workspace, WorkspaceAction::ResumeCapture, at(1)).unwrap();
    for (number, day) in [(1, 1), (2, 9), (3, 1), (4, 9), (5, 9), (6, 1), (7, 9)] {
        apply(&mut workspace, ingest(number, &format!("item {number}"), at(day)), at(1)).unwrap();
    }
    apply(&mut workspace, WorkspaceAction::PinItem(3), at(1)).unwrap();
    let policy = RetentionPolicy { max_items: 2, max_age_days: 1, deduplicate: true };
    apply(&mut workspace, WorkspaceAction::SetRetention(policy), at(10)).unwrap();
    let ids: Vec<u128> = workspace.items().iter().map(|item| item.item_id).collect();
    assert_eq!(ids, vec![7, 5, 3]);
    apply(&mut workspace, WorkspaceAction::SetRetention(policy), at(10)).unwrap();
    assert_eq!(workspace.items().len(), 3);
}

#[test]
fn an_empty_search_shows_every_item() {
    let mut workspace = ClipboardWorkspace::default();
    apply(&mut workspace, WorkspaceAction::ResumeCapture, at(1)).unwrap();
    for number in 1..4u128 {
        apply(&mut workspace, ingest(number, &format!("item {number}"), at(1)), at(1)).unwrap();
    }
    apply(&mut workspace, WorkspaceAction::PinItem(1), at(1)).unwrap();
    apply(&mut workspace, WorkspaceAction::SetSearch("item 2".into()), at(1)).unwrap();
    assert_eq!(workspace.visible_items().len(), 1);
    apply(&mut workspace, WorkspaceAction::SetSearch(String::new()), at(1)).unwrap();
    let ids: Vec<u128> = workspace.visible_items().iter().map(|item| item.item_id).collect();
    assert_eq!(ids, vec![1, 3, 2]);
}

#[test]
fn without_deduplication_content_repeats() {
    let mut workspace = ClipboardWorkspace::default();
    apply(&mut workspace, WorkspaceAction::ResumeCapture, at(1)).unwrap();
    apply(
        &mut workspace,
        WorkspaceAction::SetRetention(RetentionPolicy {
            max_items: 10,
            max_age_days: 10,
            deduplicate: false,
        }),
        at(1),
    )
    .unwrap();
    apply(&mut workspace, ingest(1, "same", at(1)), at(1)).unwrap();
    apply(&mut workspace, ingest(2, "same", at(1)), at(1)).unwrap();
    assert_eq!(workspace.items().len(), 2);
    assert_eq!(workspace.items()[0].item_id, 2);
    apply(&mut workspace, WorkspaceAction::DeleteItem(1), at(1)).unwrap();
    assert_eq!(workspace.items().len(), 1);
}

#[test]
fn exclusions_are_listed_once_in_order() {
    let fingerprint = |digit: &str| format!("sha256:{}", digit.repeat(64));
    let mut workspace = ClipboardWorkspace::default();
    apply(
        &mut workspace,
        WorkspaceAction::SetSourceExclusions(vec![
            fingerprint("c"),
            fingerprint("1"),
            fingerprint("c"),
            fingerprint("a"),
        ]),
        at(1),
    )
    .unwrap();
    assert_eq!(
        *workspace.excluded_source_fingerprints(),
        vec![fingerprint("1"), fingerprint("a"), fingerprint("c")]
    );
    assert_eq!(
        sorted_texts(vec!["b".into(), "".into(), "ab".into(), "b".into(), "é".into(), "a".into()]),
        vec!["", "a", "ab", "b", "é"]
    );
}

#[test]
fn a_remembered_command_is_forgotten_after_1024_others() {
    let mut workspace = ClipboardWorkspace::default();
    for number in 0..1024u64 {
        workspace
            .apply(u128::from(number), number, WorkspaceAction::ResumeCapture, at(1))
            .unwrap();
    }
    assert_eq!(
        workspace.apply(0, 1024, WorkspaceAction::ResumeCapture, at(1)),
        Err(WorkspaceError::DuplicateCommand)
    );
    workspace
        .apply(1024, 1024, WorkspaceAction::ResumeCapture, at(1))
        .unwrap();
    workspace
        .apply(0, 1025, WorkspaceAction::ResumeCapture, at(1))
        .unwrap();
    assert_eq!(workspace.revision(), 1026);
}

#[test]
fn searches_match_parts_of_lower_case_texts() {
    assert!(query_matches("some text", ""));
    assert!(query_matches("some text", "me te"));
    assert!(!query_matches("some text", "texts"));
    let mut workspace = ClipboardWorkspace::default();
    apply(&mut workspace, WorkspaceAction::ResumeCapture, at(1)).unwrap();
    apply(&mut workspace, ingest(1, "GRÜSSE", at(1)), at(1)).unwrap();
    apply(&mut workspace, ingest(2, "other", at(1)), at(1)).unwrap();
    apply(&mut workspace, WorkspaceAction::SetSearch("grüß".into()), at(1)).unwrap();
    assert!(workspace.visible_items().is_empty());
    apply(&mut workspace, WorkspaceAction::SetSearch("Rüss".into()), at(1)).unwrap();
    assert_eq!(workspace.visible_items().len(), 1);
    assert_eq!(workspace.search_query(), "Rüss");
    let chosen = workspace.select_visible(&vec![true, true]);
    assert_eq!(chosen.len(), 2);
}

#[test]
fn stored_parts_must_be_reachable() {
    let item = |text: &str| ClipboardItem {
        item_id: 1,
        text: text.into(),
        content_sha256: content_sha256_hex(text),
        byte_size: text.len(),
        captured_at: at(1),
        is_pinned: false,
        source_fingerprint: None,
    };
    let restore = |retention: RetentionPolicy, query: &str, exclusions: Vec<String>, items| {
        ClipboardWorkspace::from_snapshot_parts(
            5,
            CaptureState::Active,
            retention,
            query.to_owned(),
            exclusions,
            items,
            at(1),
        )
    };
    let policy = RetentionPolicy::default();
    let restored = restore(policy, "q", vec![], vec![item("a"), item("b")]).unwrap();
    assert_eq!(restored.revision(), 5);
    assert_eq!(restored.capture_state(), CaptureState::Active);
    assert_eq!(restored.retention(), policy);
    assert_eq!(restored.items().len(), 2);
    let mut forged = item("a");
    forged.content_sha256 = content_sha256_hex("b");
    for refused in [
        restore(RetentionPolicy { max_items: 0, ..policy }, "q", vec![], vec![]),
        restore(policy, &"q".repeat(257), vec![], vec![]),
        restore(policy, "q", vec!["no".into()], vec![]),
        restore(policy, "q", vec![], vec![forged]),
    ] {
        assert_eq!(refused, Err(WorkspaceError::InvalidSnapshot));
    }
}

#[test]
fn workspace_errors_have_sentences() {
    assert_eq!(WorkspaceError::CapturePaused.message(), "clipboard capture is paused");
    assert_eq!(WorkspaceError::RevisionConflict.message(), "the workspace revision changed");
}

#[test]
fn the_clock_is_past_the_year_2020() {
    assert!(Timestamp::now().unix_nanos > 1_577_836_800_000_000_000);
}
