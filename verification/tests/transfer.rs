use ftnl_desktop::formats::{UriHost, UriParts};
use ftnl_desktop::transfer::{
    check_tunnel, is_loopback, join_redacted, plan_download, safe_default_destination,
    validate_file_descriptor, validate_snapshot, validate_tunnel, DescriptorError, DownloadTarget,
    FileDescriptor, FileStatus, ReceiveSession, SaveError, SessionError, Tunnel, MAX_FILE_BYTES,
    MAX_FILES_PER_TUNNEL,
};
use uuid::Uuid;

fn descriptor(name: &str, size_bytes: u64) -> FileDescriptor {
    FileDescriptor {
        file_id: 1,
        name: name.into(),
        media_type: "application/octet-stream".into(),
        size_bytes,
        bytes_transferred: size_bytes,
        status: "available".into(),
        created_at: "2026-01-01T00:00:00Z".into(),
    }
}

fn tunnel() -> Tunnel {
    let tunnel_id = Uuid::from_u128(1);
    Tunnel {
        tunnel_id: tunnel_id.as_u128(),
        pairing_uri: format!(
            "https://upload.file-tunnel.dev/t/{tunnel_id}#c={}",
            "p".repeat(64)
        ),
        desktop_capability: "d".repeat(64),
        expires_at: "2026-01-01T00:00:00Z".into(),
        status: "waiting".into(),
    }
}

#[test]
fn session_debug_redacts_both_credentials() {
    let session = ReceiveSession::from_tunnel(tunnel()).unwrap();
    let rendered = session.redacted();
    assert!(!rendered.contains(&"p".repeat(64)));
    assert!(!rendered.contains(&"d".repeat(64)));
    assert_eq!(rendered.matches("[REDACTED]").count(), 2);
}

#[test]
fn tunnel_contract_rejects_credential_smuggling_and_wrong_routes() {
    let tunnel_id = Uuid::from_u128(1);
    assert!(ReceiveSession::from_tunnel(tunnel()).is_ok());

    for pairing_uri in [
        format!(
            "http://upload.file-tunnel.dev/t/{tunnel_id}#c={}",
            "p".repeat(64)
        ),
        format!(
            "https://user@upload.file-tunnel.dev/t/{tunnel_id}#c={}",
            "p".repeat(64)
        ),
        format!(
            "https://upload.file-tunnel.dev/t/{tunnel_id}?c={}",
            "p".repeat(64)
        ),
        format!(
            "https://upload.file-tunnel.dev/wrong/{tunnel_id}#c={}",
            "p".repeat(64)
        ),
        format!(
            "https://upload.file-tunnel.dev/t/{tunnel_id}#c={}&extra=value",
            "p".repeat(64)
        ),
    ] {
        let mut tunnel = tunnel();
        tunnel.pairing_uri = pairing_uri;
        assert!(ReceiveSession::from_tunnel(tunnel).is_err());
    }
}

#[test]
fn default_name_rejects_every_path_form() {
    assert_eq!(
        safe_default_destination("photo.jpg").unwrap(),
        "photo.jpg"
    );
    for unsafe_name in [
        "../photo.jpg",
        "folder/photo.jpg",
        "folder\\photo.jpg",
        "/tmp/photo.jpg",
        "photo.jpg:stream",
        "photo*.jpg",
        "CON.txt",
        "trailing.",
        "line\nbreak.jpg",
        "",
    ] {
        assert!(safe_default_destination(unsafe_name).is_err());
    }
    assert!(safe_default_destination(&"a".repeat(256)).is_err());
}

#[test]
fn snapshot_metadata_is_closed_bounded_and_internally_consistent() {
    let valid = descriptor("photo.jpg", 3);
    assert_eq!(validate_snapshot(std::slice::from_ref(&valid)), Ok(()));

    let mut oversized = valid.clone();
    oversized.size_bytes = MAX_FILE_BYTES + 1;
    assert_eq!(
        validate_file_descriptor(&oversized),
        Err(DescriptorError::InvalidMetadata)
    );

    let mut impossible_progress = valid.clone();
    impossible_progress.bytes_transferred = impossible_progress.size_bytes + 1;
    assert_eq!(
        validate_file_descriptor(&impossible_progress),
        Err(DescriptorError::InvalidMetadata)
    );

    let mut unknown_status = valid.clone();
    unknown_status.status = "future_status".into();
    assert_eq!(
        validate_file_descriptor(&unknown_status),
        Err(DescriptorError::InvalidMetadata)
    );

    assert_eq!(
        validate_snapshot(&[valid.clone(), valid.clone()]),
        Err(DescriptorError::DuplicateFileId)
    );
    assert_eq!(
        validate_snapshot(&vec![
            descriptor("photo.jpg", 3);
            usize::from(MAX_FILES_PER_TUNNEL) + 1
        ]),
        Err(DescriptorError::TooManyFiles)
    );

    let mut nil_id = valid.clone();
    nil_id.file_id = Uuid::nil().as_u128();
    assert_eq!(
        validate_file_descriptor(&nil_id),
        Err(DescriptorError::InvalidMetadata)
    );

    let mut invalid_created_at = valid.clone();
    invalid_created_at.created_at = "2026-01-01\n".into();
    assert_eq!(
        validate_file_descriptor(&invalid_created_at),
        Err(DescriptorError::InvalidMetadata)
    );
}

#[test]
fn download_rechecks_descriptor_metadata_at_persistence_boundary() {
    let mut invalid = descriptor("photo.jpg", 3);
    invalid.file_id = Uuid::nil().as_u128();

    assert!(matches!(
        plan_download(&invalid, b"one".len(), true),
        Err(SaveError::InvalidMetadata)
    ));
}

#[test]
fn downloads_are_checked_before_anything_is_written() {
    let file = descriptor("photo.jpg", 3);
    assert_eq!(plan_download(&file, 2, true), Err(SaveError::SizeMismatch));
    assert_eq!(plan_download(&file, 3, true), Ok(DownloadTarget::Requested));
    assert_eq!(
        plan_download(&file, 3, false),
        Ok(DownloadTarget::Named("photo.jpg".into()))
    );
    let mut invalid = descriptor("photo.jpg", 3);
    invalid.file_id = 0;
    assert_eq!(plan_download(&invalid, 3, true), Err(SaveError::InvalidMetadata));
    let unsafe_name = descriptor("../photo.jpg", 3);
    assert_eq!(
        plan_download(&unsafe_name, 3, false),
        Err(SaveError::InvalidMetadata)
    );
}

#[test]
fn sessions_carry_the_tunnel_and_show_it_redacted() {
    let session = ReceiveSession::from_tunnel(tunnel()).unwrap();
    assert_eq!(session.tunnel_id, 1);
    assert_eq!(session.id(), 1);
    assert_eq!(session.expires_at, "2026-01-01T00:00:00Z");
    assert_eq!(session.capability(), "d".repeat(64));
    assert!(session.pairing_uri().starts_with("https://upload.file-tunnel.dev/t/"));
    assert_eq!(
        session.redacted(),
        "ReceiveSession { tunnel_id: 00000000-0000-0000-0000-000000000001, expires_at: \
         \"2026-01-01T00:00:00Z\", pairing_uri: \"[REDACTED]\", desktop_capability: \
         \"[REDACTED]\" }"
    );
    assert_eq!(
        join_redacted(0xabcd, "\"x\""),
        "ReceiveSession { tunnel_id: 00000000-0000-0000-0000-00000000abcd, expires_at: \"x\", \
         pairing_uri: \"[REDACTED]\", desktop_capability: \"[REDACTED]\" }"
    );
}

#[test]
fn clear_text_is_for_loopback_alone() {
    let id = Uuid::from_u128(1);
    let secret = "p".repeat(32);
    for (origin, accepted) in [
        ("http://localhost", true),
        ("http://LOCALHOST:8080", true),
        ("http://127.0.0.1:8080", true),
        ("http://127.9.9.9", true),
        ("http://[::1]:8080", true),
        ("http://10.0.0.1", false),
        ("http://[::2]", false),
        ("http://localhost.example", false),
        ("ftp://localhost", false),
        ("https://10.0.0.1", true),
    ] {
        let mut tunnel = tunnel();
        tunnel.pairing_uri = format!("{origin}/t/{id}#c={secret}");
        assert_eq!(validate_tunnel(&tunnel).is_ok(), accepted, "{origin}");
    }
    assert!(is_loopback(&UriHost::Domain("LocalHost".into())));
    assert!(!is_loopback(&UriHost::Domain("localhost.".into())));
    assert!(is_loopback(&UriHost::Ipv4([127, 1, 2, 3])));
    assert!(!is_loopback(&UriHost::Ipv4([128, 0, 0, 1])));
    let mut one = [0; 16];
    one[15] = 1;
    assert!(is_loopback(&UriHost::Ipv6(one)));
    assert!(!is_loopback(&UriHost::Ipv6([0; 16])));
}

#[test]
fn the_pairing_secret_is_read_decoded() {
    let id = Uuid::from_u128(1);
    let mut encoded = tunnel();
    encoded.pairing_uri = format!("https://host/t/{id}#%63={}", "%61".repeat(32));
    assert_eq!(validate_tunnel(&encoded), Ok(()));
    let mut blank = tunnel();
    blank.pairing_uri = format!("https://host/t/{id}#c={}", "a+".repeat(32));
    assert_eq!(validate_tunnel(&blank), Err(SessionError::InvalidTunnel));
}

#[test]
fn every_part_of_the_tunnel_contract_is_needed() {
    let id = Uuid::from_u128(1);
    let parts = || UriParts {
        scheme: "https".into(),
        username: String::new(),
        password: None,
        host: Some(UriHost::Domain("host".into())),
        path: format!("/t/{id}"),
        query: None,
        fragment: None,
    };
    let fields = || vec![("c".to_owned(), "s".repeat(32))];
    assert!(check_tunnel(&tunnel(), &parts(), &fields()));

    let mut uri = parts();
    uri.host = None;
    assert!(!check_tunnel(&tunnel(), &uri, &fields()));
    let mut uri = parts();
    uri.username = "u".into();
    assert!(!check_tunnel(&tunnel(), &uri, &fields()));
    let mut uri = parts();
    uri.password = Some(String::new());
    assert!(!check_tunnel(&tunnel(), &uri, &fields()));
    let mut uri = parts();
    uri.query = Some(String::new());
    assert!(!check_tunnel(&tunnel(), &uri, &fields()));
    let mut uri = parts();
    uri.path.push('/');
    assert!(!check_tunnel(&tunnel(), &uri, &fields()));
    for bad in [
        vec![],
        vec![("k".to_owned(), "s".repeat(32))],
        vec![("c".to_owned(), "s".repeat(31))],
        vec![("c".to_owned(), "s".repeat(513))],
        vec![("c".to_owned(), "s ".repeat(32))],
        vec![("c".to_owned(), "s".repeat(32)), ("c".to_owned(), "s".repeat(32))],
    ] {
        assert!(!check_tunnel(&tunnel(), &parts(), &bad));
    }
    let mut other = tunnel();
    other.status = "open".into();
    assert!(!check_tunnel(&other, &parts(), &fields()));
    let mut other = tunnel();
    other.desktop_capability = "d".repeat(31);
    assert!(!check_tunnel(&other, &parts(), &fields()));
    let mut other = tunnel();
    other.expires_at = String::new();
    assert!(!check_tunnel(&other, &parts(), &fields()));
    let mut other = tunnel();
    other.expires_at = "2".repeat(65);
    assert!(!check_tunnel(&other, &parts(), &fields()));
    let mut other = tunnel();
    other.pairing_uri.push('\u{85}');
    assert!(!check_tunnel(&other, &parts(), &fields()));
    let mut other = tunnel();
    other.pairing_uri = "p".repeat(2_049);
    assert!(!check_tunnel(&other, &parts(), &fields()));
    let mut nil = tunnel();
    nil.tunnel_id = 0;
    assert_eq!(validate_tunnel(&nil), Err(SessionError::InvalidTunnel));
    let mut no_uri = tunnel();
    no_uri.pairing_uri = "no uri".into();
    assert_eq!(validate_tunnel(&no_uri), Err(SessionError::InvalidTunnel));
}

#[test]
fn names_come_to_one_plain_component() {
    assert_eq!(safe_default_destination("photo.jpg/").unwrap(), "photo.jpg");
    assert_eq!(safe_default_destination("photo.jpg/.//").unwrap(), "photo.jpg");
    assert_eq!(safe_default_destination(".hidden").unwrap(), ".hidden");
    assert_eq!(safe_default_destination("CONSOLE.txt").unwrap(), "CONSOLE.txt");
    assert_eq!(safe_default_destination(&"a".repeat(255)).unwrap(), "a".repeat(255));
    for unsafe_name in [
        ".",
        "..",
        "./photo.jpg",
        "photo.jpg/..",
        "photo.jpg/x",
        "con",
        "Lpt9.log.txt",
        "nul.",
        "trailing ",
        "a|b",
        "tab\there",
        "next\u{85}line",
    ] {
        assert_eq!(
            safe_default_destination(unsafe_name),
            Err(SaveError::UnsafeFileName),
            "{unsafe_name:?}"
        );
    }
}

#[test]
fn snapshots_report_the_first_offence() {
    let named = |file_id: u128, name: &str| {
        let mut file = descriptor(name, 3);
        file.file_id = file_id;
        file
    };
    assert_eq!(validate_snapshot(&[]), Ok(()));
    assert_eq!(validate_snapshot(&[named(1, "a"), named(2, "a")]), Ok(()));
    assert_eq!(
        validate_snapshot(&[named(1, "a"), named(1, "b"), named(2, "..")]),
        Err(DescriptorError::DuplicateFileId)
    );
    assert_eq!(
        validate_snapshot(&[named(1, ".."), named(1, "b")]),
        Err(DescriptorError::InvalidMetadata)
    );
    let mut media = named(1, "a");
    media.media_type = "text plain".into();
    assert_eq!(
        validate_file_descriptor(&media),
        Err(DescriptorError::InvalidMetadata)
    );
}

#[test]
fn statuses_are_a_closed_vocabulary() {
    assert_eq!(FileStatus::decode("declared"), Some(FileStatus::Declared));
    assert_eq!(FileStatus::decode("uploading"), Some(FileStatus::Uploading));
    assert_eq!(FileStatus::decode("available"), Some(FileStatus::Available));
    assert_eq!(FileStatus::decode("downloaded"), Some(FileStatus::Downloaded));
    assert_eq!(FileStatus::decode("rejected"), Some(FileStatus::Rejected));
    assert_eq!(FileStatus::decode("cancelled"), Some(FileStatus::Cancelled));
    assert_eq!(FileStatus::decode("Available"), None);
}

#[test]
fn transfer_errors_have_sentences() {
    assert_eq!(
        SessionError::InvalidTunnel.message(),
        "server returned a tunnel outside the desktop receive contract"
    );
    assert_eq!(
        SaveError::SizeMismatch.message(),
        "downloaded byte count did not match the declaration"
    );
    assert_eq!(
        SaveError::UnsafeFileName.message(),
        "server returned an unsafe file name"
    );
    assert_eq!(
        SaveError::InvalidMetadata.message(),
        "file metadata is outside the desktop receive contract"
    );
    assert_eq!(
        SaveError::MissingOutputDirectory.message(),
        "output directory does not exist"
    );
    assert_eq!(
        SaveError::Io("File exists (os error 17)".into()).message(),
        "cannot persist the downloaded file: File exists (os error 17)"
    );
    assert_eq!(
        DescriptorError::DuplicateFileId.message(),
        "snapshot contains duplicate file identifiers"
    );
}
