use ftnl_desktop::secrets::SecretKey;
use ftnl_desktop::secure_bluetooth::pairing::{format_sas, handshake_transcript};
use ftnl_desktop::secure_bluetooth::session::{
    associated_data, frame_header, join_frame, nonce, opened_payload,
};
use ftnl_desktop::secure_bluetooth::{
    BluetoothHello, BluetoothMessageType, BluetoothPairing, BluetoothRole,
    PendingBluetoothSession, SecureBluetoothError, SecureBluetoothSession,
    BLUETOOTH_CONFIRMATION_TIMEOUT, BLUETOOTH_SESSION_LIFETIME,
    MAX_BLUETOOTH_FRAMES_PER_DIRECTION, MAX_BLUETOOTH_PLAINTEXT_LEN,
};
use std::time::Instant;

const INITIATOR_ID: &str = "desktop-a";
const RESPONDER_ID: &str = "desktop-b";

fn pending_pair() -> (PendingBluetoothSession, PendingBluetoothSession) {
    let initiator = BluetoothPairing::initiator(INITIATOR_ID.to_owned()).unwrap();
    let initiator_hello = initiator.hello().clone();
    let responder =
        BluetoothPairing::responder(RESPONDER_ID.to_owned(), &initiator_hello).unwrap();
    let responder_hello = responder.hello().clone();
    (
        initiator.derive(&responder_hello).unwrap(),
        responder.derive(&initiator_hello).unwrap(),
    )
}

fn session_pair() -> (SecureBluetoothSession, SecureBluetoothSession) {
    let (initiator_pending, responder_pending) = pending_pair();
    let sas = initiator_pending.short_authentication_string().to_owned();
    (
        initiator_pending.confirm(&sas).unwrap(),
        responder_pending.confirm(&sas).unwrap(),
    )
}

fn pairing(
    role: BluetoothRole,
    device_id: &str,
    session_id: [u8; 16],
    contribution: [u8; 16],
    private_key: [u8; 32],
) -> BluetoothPairing {
    BluetoothPairing::new(
        role,
        device_id.to_owned(),
        session_id,
        contribution,
        SecretKey::new(private_key),
    )
    .unwrap()
}

fn hex_encode(bytes: &[u8]) -> String {
    bytes.iter().map(|byte| format!("{byte:02x}")).collect()
}

#[test]
fn hello_round_trips_and_rejects_trailing_bytes() {
    let pairing = BluetoothPairing::initiator(INITIATOR_ID.to_owned()).unwrap();
    let encoded = pairing.hello().encode();
    assert_eq!(BluetoothHello::decode(&encoded).unwrap(), *pairing.hello());

    let mut trailing = encoded;
    trailing.push(0);
    assert_eq!(
        BluetoothHello::decode(&trailing),
        Err(SecureBluetoothError::InvalidHello)
    );
}

#[test]
fn sas_confirmation_is_required_before_frames() {
    let (initiator_pending, responder_pending) = pending_pair();
    let sas = responder_pending.short_authentication_string().to_owned();
    assert!(matches!(
        initiator_pending.confirm("000000"),
        Err(SecureBluetoothError::AuthenticationMismatch)
    ));
    let _ = responder_pending.confirm(&sas).unwrap();
}

#[test]
fn peers_encrypt_in_both_directions_with_exact_counters() {
    let (mut initiator, mut responder) = session_pair();

    let outbound = initiator
        .encrypt(BluetoothMessageType::PeerInfo, b"bounded peer info")
        .unwrap();
    let (kind, plaintext) = responder.decrypt(&outbound).unwrap();
    assert_eq!(kind, BluetoothMessageType::PeerInfo);
    assert_eq!(plaintext.as_slice(), b"bounded peer info");

    let reply = responder
        .encrypt(BluetoothMessageType::SharedAuth, b"opaque request")
        .unwrap();
    let (kind, plaintext) = initiator.decrypt(&reply).unwrap();
    assert_eq!(kind, BluetoothMessageType::SharedAuth);
    assert_eq!(plaintext.as_slice(), b"opaque request");

    assert_eq!(
        responder.decrypt(&outbound),
        Err(SecureBluetoothError::ReplayOrOutOfOrder)
    );
}

#[test]
fn tampering_does_not_advance_receive_counter() {
    let (mut initiator, mut responder) = session_pair();
    let valid = initiator
        .encrypt(BluetoothMessageType::UpdateManifest, b"signed metadata")
        .unwrap();
    let mut tampered = valid.clone();
    let last = tampered.len() - 1;
    tampered[last] ^= 1;
    assert_eq!(
        responder.decrypt(&tampered),
        Err(SecureBluetoothError::Decrypt)
    );

    assert_eq!(
        responder.decrypt(&valid).unwrap().1.as_slice(),
        b"signed metadata"
    );
}

#[test]
fn bounds_and_unknown_values_fail_closed() {
    let (mut initiator, mut responder) = session_pair();
    assert_eq!(
        initiator.encrypt(
            BluetoothMessageType::PeerInfo,
            &[0u8; MAX_BLUETOOTH_PLAINTEXT_LEN + 1]
        ),
        Err(SecureBluetoothError::MessageTooLarge)
    );

    let mut frame = initiator
        .encrypt(BluetoothMessageType::PeerInfo, b"payload")
        .unwrap();
    frame[5] = 255;
    assert_eq!(
        responder.decrypt(&frame),
        Err(SecureBluetoothError::InvalidFrame)
    );
}

#[test]
fn fixed_vector_is_stable_for_dart_conformance() {
    let initiator = pairing(
        BluetoothRole::Initiator,
        "desktop-a",
        [1; 16],
        [2; 16],
        [3; 32],
    );
    let responder = pairing(
        BluetoothRole::Responder,
        "desktop-b",
        [1; 16],
        [4; 16],
        [5; 32],
    );
    let initiator_hello = initiator.hello().clone();
    let responder_hello = responder.hello().clone();
    let initiator_pending = initiator.derive(&responder_hello).unwrap();
    let responder_pending = responder.derive(&initiator_hello).unwrap();
    assert_eq!(
        initiator_pending.short_authentication_string(),
        responder_pending.short_authentication_string()
    );
    let sas = initiator_pending.short_authentication_string().to_owned();
    let mut initiator = initiator_pending.confirm(&sas).unwrap();
    let mut responder = responder_pending.confirm(&sas).unwrap();
    let frame = initiator
        .encrypt(BluetoothMessageType::PeerInfo, b"cross-language")
        .unwrap();
    assert_eq!(
        responder.decrypt(&frame).unwrap().1.as_slice(),
        b"cross-language"
    );
    assert_eq!(
        hex_encode(&frame),
        "4654424501020000000000000001001e27099d19814472695338d697c059063622849adfb50bde364537bd94e35c"
    );
}

#[test]
fn hello_has_the_documented_layout() {
    let pairing = pairing(
        BluetoothRole::Responder,
        "desktop-b",
        [1; 16],
        [4; 16],
        [5; 32],
    );
    let hello = pairing.hello();
    assert_eq!(hello.role(), BluetoothRole::Responder);
    assert_eq!(hello.session_id(), &[1; 16]);
    assert_eq!(hello.device_id(), "desktop-b");
    let encoded = hello.encode();
    assert_eq!(encoded.len(), 71 + 9);
    assert_eq!(&encoded[..6], b"FTBH\x01\x01");
    assert_eq!(&encoded[6..22], &[1; 16]);
    assert_eq!(&encoded[22..38], &[4; 16]);
    assert_eq!(encoded[38], 9);
    assert_eq!(&encoded[39..48], b"desktop-b");
    assert_eq!(&encoded[48..], hello.public_key());
    assert_ne!(hello.public_key(), &[5; 32]);
}

#[test]
fn decode_refuses_every_malformed_hello() {
    let valid = pairing(
        BluetoothRole::Initiator,
        "desktop-a",
        [1; 16],
        [2; 16],
        [3; 32],
    )
    .hello()
    .encode();
    assert!(BluetoothHello::decode(&valid).is_ok());
    assert!(BluetoothHello::decode(&[]).is_err());
    assert!(BluetoothHello::decode(&valid[..valid.len() - 1]).is_err());
    for (index, value) in [(0, b'X'), (4, 2), (5, 2), (38, 7), (38, 65), (39, b' '), (40, 0xff)] {
        let mut broken = valid.clone();
        broken[index] = value;
        assert_eq!(
            BluetoothHello::decode(&broken),
            Err(SecureBluetoothError::InvalidHello)
        );
    }
    for range in [6..22, 22..38, 48..80] {
        let mut zeroed = valid.clone();
        for byte in &mut zeroed[range] {
            *byte = 0;
        }
        assert_eq!(
            BluetoothHello::decode(&zeroed),
            Err(SecureBluetoothError::InvalidHello)
        );
    }
}

#[test]
fn pairings_need_a_device_a_session_and_a_contribution() {
    for device_id in ["short", "has space!", &"x".repeat(65)] {
        assert!(matches!(
            BluetoothPairing::initiator(device_id.to_owned()),
            Err(SecureBluetoothError::InvalidHello)
        ));
    }
    assert!(matches!(
        BluetoothPairing::new(
            BluetoothRole::Initiator,
            "desktop-a".to_owned(),
            [0; 16],
            [2; 16],
            SecretKey::new([3; 32])
        ),
        Err(SecureBluetoothError::InvalidHello)
    ));
    assert!(matches!(
        BluetoothPairing::new(
            BluetoothRole::Initiator,
            "desktop-a".to_owned(),
            [1; 16],
            [0; 16],
            SecretKey::new([3; 32])
        ),
        Err(SecureBluetoothError::KeyAgreement)
    ));
}

#[test]
fn peers_of_another_handshake_are_refused() {
    let own = || pairing(BluetoothRole::Initiator, "desktop-a", [1; 16], [2; 16], [3; 32]);
    let peers = [
        pairing(BluetoothRole::Initiator, "desktop-b", [1; 16], [4; 16], [5; 32]),
        pairing(BluetoothRole::Responder, "desktop-b", [9; 16], [4; 16], [5; 32]),
        pairing(BluetoothRole::Responder, "desktop-a", [1; 16], [4; 16], [5; 32]),
        pairing(BluetoothRole::Responder, "desktop-b", [1; 16], [4; 16], [3; 32]),
    ];
    for peer in peers {
        assert!(matches!(
            own().derive(peer.hello()),
            Err(SecureBluetoothError::InvalidPeer)
        ));
    }
    let responder = pairing(BluetoothRole::Responder, "desktop-b", [1; 16], [4; 16], [5; 32]);
    assert!(matches!(
        BluetoothPairing::responder("desktop-c".to_owned(), responder.hello()),
        Err(SecureBluetoothError::InvalidPeer)
    ));
}

#[test]
fn a_key_of_small_order_agrees_on_nothing() {
    let own = pairing(BluetoothRole::Initiator, "desktop-a", [1; 16], [2; 16], [3; 32]);
    let mut bytes = pairing(BluetoothRole::Responder, "desktop-b", [1; 16], [4; 16], [5; 32])
        .hello()
        .encode();
    let start = bytes.len() - 32;
    for (offset, byte) in bytes[start..].iter_mut().enumerate() {
        *byte = if offset == 0 { 1 } else { 0 };
    }
    let peer = BluetoothHello::decode(&bytes).unwrap();
    assert!(matches!(
        own.derive(&peer),
        Err(SecureBluetoothError::KeyAgreement)
    ));
}

#[test]
fn material_is_split_by_direction() {
    let initiator = pairing(BluetoothRole::Initiator, "desktop-a", [1; 16], [2; 16], [3; 32]);
    let responder = pairing(BluetoothRole::Responder, "desktop-b", [1; 16], [4; 16], [5; 32]);
    let mut material = [0u8; 104];
    for (index, byte) in material.iter_mut().enumerate() {
        *byte = index as u8;
    }
    // 0x48494a4b is 1212762699.
    let from_initiator = PendingBluetoothSession::from_material(
        initiator.hello(),
        responder.hello(),
        [7; 32],
        &material,
        Instant::now(),
    );
    let from_responder = PendingBluetoothSession::from_material(
        responder.hello(),
        initiator.hello(),
        [7; 32],
        &material,
        Instant::now(),
    );
    assert_eq!(from_initiator.short_authentication_string(), "762699");
    assert_eq!(from_responder.short_authentication_string(), "762699");
    assert_eq!(from_initiator.local_device_id(), "desktop-a");
    assert_eq!(from_initiator.peer_device_id(), "desktop-b");
    assert_eq!(from_responder.local_device_id(), "desktop-b");
    assert_eq!(from_responder.peer_device_id(), "desktop-a");
    let mut a = from_initiator.confirm("762699").unwrap();
    let mut b = from_responder.confirm("762699").unwrap();
    assert_eq!(a.local_role(), BluetoothRole::Initiator);
    assert_eq!(b.local_role(), BluetoothRole::Responder);
    let frame = b.encrypt(BluetoothMessageType::SharedAuth, b"").unwrap();
    assert_eq!(frame.len(), 16 + 16);
    assert_eq!(a.decrypt(&frame).unwrap().1.as_slice(), b"");
}

#[test]
fn confirmation_takes_the_string_in_time_alone() {
    let window = BLUETOOTH_CONFIRMATION_TIMEOUT;
    let (late, in_time) = pending_pair();
    let sas = late.short_authentication_string().to_owned();
    assert!(matches!(
        late.confirm_after(window + 1, &sas),
        Err(SecureBluetoothError::ConfirmationExpired)
    ));
    assert!(in_time.confirm_after(window, &sas).is_ok());
    for observed in ["", "12345", "1234567", "12345a", "１２３４５６"] {
        let (pending, _) = pending_pair();
        assert!(matches!(
            pending.confirm_after(0, observed),
            Err(SecureBluetoothError::AuthenticationMismatch)
        ));
    }
}

#[test]
fn sessions_end_after_their_lifetime() {
    let (mut initiator, mut responder) = session_pair();
    let frame = initiator
        .encrypt_after(
            BLUETOOTH_SESSION_LIFETIME,
            BluetoothMessageType::PeerInfo,
            b"last",
        )
        .unwrap();
    assert_eq!(
        initiator.encrypt_after(
            BLUETOOTH_SESSION_LIFETIME + 1,
            BluetoothMessageType::PeerInfo,
            b"late"
        ),
        Err(SecureBluetoothError::SessionExpired)
    );
    assert_eq!(
        responder.decrypt_after(BLUETOOTH_SESSION_LIFETIME + 1, &frame),
        Err(SecureBluetoothError::SessionExpired)
    );
    assert_eq!(
        responder
            .decrypt_after(BLUETOOTH_SESSION_LIFETIME, &frame)
            .unwrap()
            .1
            .as_slice(),
        b"last"
    );
}

#[test]
fn each_direction_carries_a_limited_number_of_frames() {
    let (mut initiator, mut responder) = session_pair();
    for _ in 0..MAX_BLUETOOTH_FRAMES_PER_DIRECTION {
        let frame = initiator
            .encrypt_after(0, BluetoothMessageType::PeerInfo, b"x")
            .unwrap();
        assert!(responder.decrypt_after(0, &frame).is_ok());
    }
    assert_eq!(
        initiator.encrypt_after(0, BluetoothMessageType::PeerInfo, b"x"),
        Err(SecureBluetoothError::FrameLimit)
    );
    let header = frame_header(
        BluetoothMessageType::PeerInfo,
        MAX_BLUETOOTH_FRAMES_PER_DIRECTION + 1,
        17,
    )
    .unwrap();
    assert_eq!(
        responder.decrypt_after(0, &join_frame(&header, &[0; 17])),
        Err(SecureBluetoothError::FrameLimit)
    );
}

#[test]
fn frames_are_taken_in_order_and_in_full() {
    let (mut initiator, mut responder) = session_pair();
    let first = initiator
        .encrypt(BluetoothMessageType::PeerInfo, b"first")
        .unwrap();
    let second = initiator
        .encrypt(BluetoothMessageType::PeerInfo, b"second")
        .unwrap();
    assert_eq!(
        responder.examine(&second),
        Err(SecureBluetoothError::ReplayOrOutOfOrder)
    );
    assert_eq!(
        responder.examine(&first),
        Ok((BluetoothMessageType::PeerInfo, 1))
    );
    let mut long = first.clone();
    long.push(0);
    assert_eq!(
        responder.decrypt(&long),
        Err(SecureBluetoothError::InvalidFrame)
    );
    assert_eq!(
        responder.decrypt(&first[..31]),
        Err(SecureBluetoothError::InvalidFrame)
    );
    assert!(responder.decrypt(&first).is_ok());
    assert!(responder.decrypt(&second).is_ok());
    // What one end sent, it does not receive itself.
    assert_eq!(
        initiator.decrypt(&first),
        Err(SecureBluetoothError::Decrypt)
    );
}

#[test]
fn frame_parts_have_the_documented_layout() {
    assert_eq!(
        frame_header(BluetoothMessageType::UpdateManifest, 0x0102_0304_0506_0708, 0x1234),
        Ok([
            b'F', b'T', b'B', b'E', 1, 3, 1, 2, 3, 4, 5, 6, 7, 8, 0x12, 0x34
        ])
    );
    assert_eq!(
        frame_header(BluetoothMessageType::PeerInfo, 1, 0x1_0000),
        Err(SecureBluetoothError::MessageTooLarge)
    );
    assert_eq!(
        nonce([9, 8, 7, 6], 258),
        [9, 8, 7, 6, 0, 0, 0, 0, 0, 0, 1, 2]
    );
    let aad = associated_data(&[1; 32], &[2; 16], &[3, 4]);
    assert_eq!(aad.len(), 50);
    assert_eq!(&aad[30..], &[1, 1, 2, 2, 2, 2, 2, 2, 2, 2, 2, 2, 2, 2, 2, 2, 2, 2, 3, 4]);
    assert_eq!(
        opened_payload(BluetoothMessageType::PeerInfo, None),
        Err(SecureBluetoothError::Decrypt)
    );
    let (kind, payload) =
        opened_payload(BluetoothMessageType::SharedAuth, Some(vec![1, 2])).unwrap();
    assert_eq!(kind, BluetoothMessageType::SharedAuth);
    assert_eq!(payload.as_slice(), &[1, 2]);
}

#[test]
fn nonces_differ_by_prefix_and_by_number() {
    assert_ne!(nonce([1, 2, 3, 4], 5), nonce([1, 2, 3, 5], 5));
    assert_ne!(nonce([1, 2, 3, 4], 5), nonce([1, 2, 3, 4], 6));
    assert_ne!(nonce([0, 0, 0, 1], 0), nonce([0, 0, 0, 0], 1 << 56));
}

#[test]
fn transcripts_name_the_initiator_first() {
    let initiator = pairing(BluetoothRole::Initiator, "desktop-a", [1; 16], [2; 16], [3; 32]);
    let responder = pairing(BluetoothRole::Responder, "desktop-b", [1; 16], [4; 16], [5; 32]);
    let transcript = handshake_transcript(initiator.hello(), responder.hello());
    assert_eq!(&transcript[..24], b"ftnl-secure-bluetooth-v1");
    assert_eq!(&transcript[24..26], &[0, 80]);
    assert_eq!(&transcript[26..106], initiator.hello().encode().as_slice());
    assert_eq!(&transcript[106..108], &[0, 80]);
    assert_eq!(&transcript[108..], responder.hello().encode().as_slice());
}

#[test]
fn authentication_strings_have_six_digits() {
    assert_eq!(format_sas(0), "000000");
    assert_eq!(format_sas(42), "000042");
    assert_eq!(format_sas(999_999), "999999");
}

#[test]
fn bluetooth_errors_have_sentences() {
    assert_eq!(
        SecureBluetoothError::ReplayOrOutOfOrder.message(),
        "replayed or out-of-order Bluetooth frame"
    );
    assert_eq!(
        SecureBluetoothError::InvalidHello.message(),
        "invalid Bluetooth handshake message"
    );
}
