//! The handshake and the frames byte by byte, with their limits in numbers.
use crate::clock::clock_gave;
use crate::crypto::{
    chacha20poly1305_opened, chacha20poly1305_sealed, hkdf_sha256_output, sha256_digest,
    x25519_public_key, x25519_shared_secret,
};
use crate::encoding::laws::bytes_are_read_most_significant_first;
use crate::encoding::{
    be_bytes, be_value, lemma_be_bytes_len, lemma_be_round_trip, lemma_be_value_bound,
    lemma_pow256_values,
};
use crate::secrets::SecretBytes;
use crate::secure_bluetooth::hello::{
    bluetooth_error_text, hello_bytes, lemma_hello_layout, opposite_role, role_byte,
    valid_device_id, valid_hello, BluetoothRole, HelloView, SecureBluetoothError,
};
use crate::secure_bluetooth::pairing::{
    confirm_outcome, confirmed, derive_outcome, derived, lemma_transcript_layout, pairing_outcome,
    pairing_result, pending_result, pending_session, session_result, six_digits, transcript_of,
    BluetoothPairing, PairingView, PendingBluetoothSession, PendingView, PROTOCOL_LABEL,
};
use crate::secure_bluetooth::session::{
    admitted_frame, associated_bytes, decrypt_outcome, encrypt_outcome, encrypted, frame_result,
    header_bytes,
    message_byte, nonce_bytes, payload_result, BluetoothMessageType, SecureBluetoothSession,
    SessionView,
};
use crate::text::laws::{character_classes_are_ranges_of_code_points, decimal_value};
use std::time::Instant;
use vstd::prelude::*;
use vstd::utf8::*;

verus! {

// ---- the hello ----

/// A device identifier has 8 to 64 characters, each an ASCII letter, a digit, `-` or `_`.
pub proof fn device_identifiers_are_bounded_tokens(id: Seq<char>)
    ensures
        valid_device_id(id) <==> 8 <= id.len() <= 64 && forall|i: int|
            0 <= i < id.len() ==> {
                let code = (#[trigger] id[i]) as int;
                48 <= code <= 57 || 65 <= code <= 90 || 97 <= code <= 122 || code == 45 || code
                    == 95
            },
{
    character_classes_are_ranges_of_code_points(id);
}

/// A hello is valid exactly where its fields have their lengths, its device identifier is valid
/// and its session, contribution and public key each have a byte that is not zero.
pub proof fn hellos_are_valid_under_these_conditions(h: HelloView)
    ensures
        valid_hello(h) <==> {
            &&& h.session_id.len() == 16 && h.contribution.len() == 16 && h.public_key.len() == 32
            &&& valid_device_id(h.device_id)
            &&& exists|i: int| 0 <= i < 16 && #[trigger] h.session_id[i] != 0u8
            &&& exists|i: int| 0 <= i < 16 && #[trigger] h.contribution[i] != 0u8
            &&& exists|i: int| 0 <= i < 32 && #[trigger] h.public_key[i] != 0u8
        },
{
}

/// A hello is written as `FTBH`, the version 1, the role as 0 or 1, the session, the contribution,
/// the length of the identifier, the identifier and the public key.
pub proof fn hellos_are_written_field_by_field(h: HelloView)
    requires
        valid_hello(h),
    ensures
        ({
            let bytes = hello_bytes(h);
            let n = h.device_id.len() as int;
            &&& bytes.len() == 71 + n
            &&& bytes[0] == 0x46 && bytes[1] == 0x54 && bytes[2] == 0x42 && bytes[3] == 0x48
            &&& bytes[4] == 1
            &&& bytes[5] == if h.role is Initiator { 0u8 } else { 1u8 }
            &&& forall|i: int| 0 <= i < 16 ==> bytes[6 + i] == #[trigger] h.session_id[i]
            &&& forall|i: int| 0 <= i < 16 ==> bytes[22 + i] == #[trigger] h.contribution[i]
            &&& bytes[38] == n
            &&& forall|i: int| 0 <= i < n ==> bytes[39 + i] == (#[trigger] h.device_id[i]) as u8
            &&& forall|i: int| 0 <= i < 32 ==> bytes[39 + n + i] == #[trigger] h.public_key[i]
        }),
{
    lemma_hello_layout(h);
    let bytes = hello_bytes(h);
    let n = h.device_id.len() as int;
    assert(bytes.subrange(0, 4)[0] == bytes[0]);
    assert(bytes.subrange(0, 4)[1] == bytes[1]);
    assert(bytes.subrange(0, 4)[2] == bytes[2]);
    assert(bytes.subrange(0, 4)[3] == bytes[3]);
    assert forall|i: int| 0 <= i < 16 implies bytes[6 + i] == #[trigger] h.session_id[i] by {
        assert(bytes.subrange(6, 22)[i] == bytes[6 + i]);
    }
    assert forall|i: int| 0 <= i < 16 implies bytes[22 + i] == #[trigger] h.contribution[i] by {
        assert(bytes.subrange(22, 38)[i] == bytes[22 + i]);
    }
    assert(is_ascii_chars(h.device_id));
    is_ascii_chars_encode_utf8(h.device_id);
    assert forall|i: int| 0 <= i < n implies bytes[39 + i] == (#[trigger] h.device_id[i]) as u8 by {
        assert(bytes.subrange(39, 39 + n)[i] == bytes[39 + i]);
    }
    assert forall|i: int| 0 <= i < 32 implies bytes[39 + n + i] == #[trigger] h.public_key[i] by {
        assert(bytes.subrange(39 + n, 71 + n)[i] == bytes[39 + n + i]);
    }
}

/// The roles are each other's opposite.
pub proof fn roles_are_opposites()
    ensures
        opposite_role(BluetoothRole::Initiator) is Responder,
        opposite_role(BluetoothRole::Responder) is Initiator,
        role_byte(BluetoothRole::Initiator) == 0,
        role_byte(BluetoothRole::Responder) == 1,
{
}

// ---- the handshake ----

/// A pairing needs a valid identifier and a session that is not zero, and then a contribution that
/// is not zero; its hello says what it was given and the public key of its private key.
pub proof fn pairings_are_made_of_what_they_were_given(
    role: BluetoothRole,
    device_id: Seq<char>,
    session_id: Seq<u8>,
    contribution: Seq<u8>,
    private_key: Seq<u8>,
)
    ensures
        ({
            let outcome = pairing_outcome(role, device_id, session_id, contribution, private_key);
            let in_session = exists|i: int|
                0 <= i < session_id.len() && #[trigger] session_id[i] != 0u8;
            let contributes = exists|i: int|
                0 <= i < contribution.len() && #[trigger] contribution[i] != 0u8;
            if !valid_device_id(device_id) || !in_session {
                outcome == Err::<PairingView, _>(SecureBluetoothError::InvalidHello)
            } else if !contributes {
                outcome == Err::<PairingView, _>(SecureBluetoothError::KeyAgreement)
            } else {
                outcome matches Ok(pairing) && {
                    &&& pairing.secret == private_key
                    &&& pairing.hello.role == role
                    &&& pairing.hello.session_id == session_id
                    &&& pairing.hello.contribution == contribution
                    &&& pairing.hello.device_id == device_id
                    &&& pairing.hello.public_key == x25519_public_key(private_key)
                }
            }
        }),
{
}

/// The label of the protocol is the ASCII text `ftnl-secure-bluetooth-v1`.
pub proof fn the_protocol_has_its_label()
    ensures
        PROTOCOL_LABEL@.len() == 24,
        forall|i: int|
            0 <= i < 24 ==> #[trigger] PROTOCOL_LABEL@[i] == "ftnl-secure-bluetooth-v1"@[i] as u8,
{
    reveal_strlit("ftnl-secure-bluetooth-v1");
}

/// Both devices hash the label, then the initiator's hello and then the responder's, each behind
/// its length in two bytes.
pub proof fn transcripts_hold_both_hellos(own: HelloView, peer: HelloView)
    requires
        valid_hello(own),
        valid_hello(peer),
        own.role != peer.role,
    ensures
        ({
            let transcript = transcript_of(own, peer);
            let first = hello_bytes(if own.role is Initiator { own } else { peer });
            let second = hello_bytes(if own.role is Initiator { peer } else { own });
            let n = first.len() as int;
            let m = second.len() as int;
            &&& transcript.len() == 28 + n + m
            &&& transcript.subrange(0, 24) == PROTOCOL_LABEL@
            &&& 0x100 * transcript[24] + transcript[25] == n
            &&& transcript.subrange(26, 26 + n) == first
            &&& 0x100 * transcript[26 + n] + transcript[27 + n] == m
            &&& transcript.subrange(28 + n, 28 + n + m) == second
            &&& transcript_of(peer, own) == transcript
        }),
{
    let initiator = if own.role is Initiator { own } else { peer };
    let responder = if own.role is Initiator { peer } else { own };
    let transcript = transcript_of(own, peer);
    let n = hello_bytes(initiator).len() as int;
    let m = hello_bytes(responder).len() as int;
    lemma_transcript_layout(initiator, responder);
    lemma_pow256_values();
    lemma_be_bytes_len(n as nat, 2);
    lemma_be_bytes_len(m as nat, 2);
    lemma_be_round_trip(n as nat, 2);
    lemma_be_round_trip(m as nat, 2);
    bytes_are_read_most_significant_first(be_bytes(n as nat, 2));
    bytes_are_read_most_significant_first(be_bytes(m as nat, 2));
    assert(transcript.subrange(0, 24) =~= PROTOCOL_LABEL@);
    assert(transcript.subrange(24, 26)[0] == transcript[24]);
    assert(transcript.subrange(24, 26)[1] == transcript[25]);
    assert(transcript.subrange(26 + n, 28 + n) =~= be_bytes(m as nat, 2));
    assert(transcript.subrange(26 + n, 28 + n)[0] == transcript[26 + n]);
    assert(transcript.subrange(26 + n, 28 + n)[1] == transcript[27 + n]);
}

/// A derivation needs two valid hellos of opposite roles in one session, of different devices with
/// different keys, and a shared secret that is not zero. Its key material is 104 bytes of HKDF
/// over the secret, salted with the hash of the transcript, under the protocol's label.
pub proof fn derivations_go_by_both_hellos(
    pairing: PairingView,
    peer: HelloView,
    created_at: Instant,
)
    ensures
        ({
            let outcome = derive_outcome(pairing, peer, created_at);
            let own = pairing.hello;
            let shared = x25519_shared_secret(pairing.secret, peer.public_key);
            let hash = sha256_digest(transcript_of(own, peer));
            if !valid_hello(own) || !valid_hello(peer) {
                outcome == Err::<PendingView, _>(SecureBluetoothError::InvalidHello)
            } else if own.role == peer.role || own.session_id != peer.session_id || own.device_id
                == peer.device_id || own.public_key == peer.public_key {
                outcome == Err::<PendingView, _>(SecureBluetoothError::InvalidPeer)
            } else if !(exists|i: int| 0 <= i < shared.len() && #[trigger] shared[i] != 0u8) {
                outcome == Err::<PendingView, _>(SecureBluetoothError::KeyAgreement)
            } else {
                outcome == Ok::<_, SecureBluetoothError>(
                    pending_session(
                        own,
                        peer,
                        hash,
                        hkdf_sha256_output(hash, shared, PROTOCOL_LABEL@, 104),
                        created_at,
                    ),
                )
            }
        }),
{
}

/// The first 32 bytes of the material are the initiator's key and the next the responder's; four
/// bytes of nonce prefix for each follow, and the four bytes after them, as a number without all
/// but its last six decimal digits, are the authentication string. Each device sends under its
/// own key and prefix and receives under the other's.
pub proof fn material_is_dealt_out_by_role(
    own: HelloView,
    peer: HelloView,
    transcript_hash: Seq<u8>,
    material: Seq<u8>,
    created_at: Instant,
)
    requires
        material.len() == 104,
    ensures
        ({
            let p = pending_session(own, peer, transcript_hash, material, created_at);
            let number = (0x1_00_0000 * material[72] + 0x1_0000 * material[73] + 0x100
                * material[74] + material[75]) % 1_000_000;
            &&& p.local_role == own.role
            &&& p.session_id == own.session_id
            &&& p.local_device_id == own.device_id
            &&& p.peer_device_id == peer.device_id
            &&& p.transcript_hash == transcript_hash
            &&& p.created_at == created_at
            &&& own.role is Initiator ==> p.tx_key == material.subrange(0, 32) && p.rx_key
                == material.subrange(32, 64) && p.tx_prefix == material.subrange(64, 68)
                && p.rx_prefix == material.subrange(68, 72)
            &&& own.role is Responder ==> p.tx_key == material.subrange(32, 64) && p.rx_key
                == material.subrange(0, 32) && p.tx_prefix == material.subrange(68, 72)
                && p.rx_prefix == material.subrange(64, 68)
            &&& p.sas.len() == 6
            &&& forall|i: int| 0 <= i < 6 ==> '0' <= #[trigger] p.sas[i] <= '9'
            &&& decimal_value(p.sas) == number
        }),
{
    let part = material.subrange(72, 76);
    bytes_are_read_most_significant_first(part);
    lemma_be_value_bound(part);
    lemma_six_digits((be_value(part) % 1_000_000) as nat);
}

proof fn lemma_six_digits(n: nat)
    requires
        n < 1_000_000,
    ensures
        six_digits(n).len() == 6,
        forall|i: int| 0 <= i < 6 ==> '0' <= #[trigger] six_digits(n)[i] <= '9',
        decimal_value(six_digits(n)) == n,
{
    let s = six_digits(n);
    assert(s[0] as int == 48 + n / 100_000 % 10);
    assert(s[1] as int == 48 + n / 10_000 % 10);
    assert(s[2] as int == 48 + n / 1_000 % 10);
    assert(s[3] as int == 48 + n / 100 % 10);
    assert(s[4] as int == 48 + n / 10 % 10);
    assert(s[5] as int == 48 + n % 10);
    let s5 = s.drop_last();
    let s4 = s5.drop_last();
    let s3 = s4.drop_last();
    let s2 = s3.drop_last();
    let s1 = s2.drop_last();
    let s0 = s1.drop_last();
    assert(decimal_value(s0) == 0);
    assert(decimal_value(s1) == 10 * decimal_value(s0) + (s[0] as int - 48));
    assert(decimal_value(s2) == 10 * decimal_value(s1) + (s[1] as int - 48));
    assert(decimal_value(s3) == 10 * decimal_value(s2) + (s[2] as int - 48));
    assert(decimal_value(s4) == 10 * decimal_value(s3) + (s[3] as int - 48));
    assert(decimal_value(s5) == 10 * decimal_value(s4) + (s[4] as int - 48));
    assert(decimal_value(s) == 10 * decimal_value(s5) + (s[5] as int - 48));
    assert(n / 100_000 % 10 == n / 100_000);
}

/// A pending session is confirmed within two minutes by its own string of six digits; too late, or
/// by anything else, it is not. The confirmed session has the keys of the pending one and has
/// neither sent nor received.
pub proof fn sessions_are_confirmed_by_their_string_in_time(
    pending: PendingView,
    elapsed: u128,
    observed: Seq<char>,
    created_at: Instant,
)
    ensures
        ({
            let outcome = confirm_outcome(pending, elapsed, observed, created_at);
            if elapsed > 120_000_000_000 {
                outcome == Err::<SessionView, _>(SecureBluetoothError::ConfirmationExpired)
            } else if observed == pending.sas && observed.len() == 6 && forall|i: int|
                0 <= i < 6 ==> 48 <= (#[trigger] observed[i]) as int <= 57 {
                outcome matches Ok(session) && {
                    &&& session.local_role == pending.local_role
                    &&& session.session_id == pending.session_id
                    &&& session.transcript_hash == pending.transcript_hash
                    &&& session.tx_key == pending.tx_key
                    &&& session.rx_key == pending.rx_key
                    &&& session.tx_prefix == pending.tx_prefix
                    &&& session.rx_prefix == pending.rx_prefix
                    &&& session.tx_counter == 0
                    &&& session.rx_counter == 0
                    &&& session.created_at == created_at
                }
            } else {
                outcome == Err::<SessionView, _>(SecureBluetoothError::AuthenticationMismatch)
            }
        }),
{
    character_classes_are_ranges_of_code_points(observed);
}

// ---- the frames ----

/// The message classes are the bytes 1, 2 and 3.
pub proof fn message_classes_are_numbered()
    ensures
        message_byte(BluetoothMessageType::SharedAuth) == 1,
        message_byte(BluetoothMessageType::PeerInfo) == 2,
        message_byte(BluetoothMessageType::UpdateManifest) == 3,
{
}

/// A frame's header is `FTBE`, the version 1, the message class, the number in eight bytes and the
/// length of the ciphertext in two.
pub proof fn headers_are_written_field_by_field(
    message_type: BluetoothMessageType,
    counter: u64,
    ciphertext_len: nat,
)
    requires
        ciphertext_len <= 0xffff,
    ensures
        ({
            let header = header_bytes(message_type, counter, ciphertext_len);
            &&& header.len() == 16
            &&& header[0] == 0x46 && header[1] == 0x54 && header[2] == 0x42 && header[3] == 0x45
            &&& header[4] == 1
            &&& header[5] == match message_type {
                BluetoothMessageType::SharedAuth => 1u8,
                BluetoothMessageType::PeerInfo => 2u8,
                BluetoothMessageType::UpdateManifest => 3u8,
            }
            &&& counter == 0x100_0000_0000_0000 * header[6] + 0x1_0000_0000_0000 * header[7]
                + 0x100_0000_0000 * header[8] + 0x1_0000_0000 * header[9] + 0x100_0000 * header[10]
                + 0x1_0000 * header[11] + 0x100 * header[12] + header[13]
            &&& ciphertext_len == 0x100 * header[14] + header[15]
        }),
{
    let header = header_bytes(message_type, counter, ciphertext_len);
    lemma_be_bytes_len(counter as nat, 8);
    lemma_be_bytes_len(ciphertext_len, 2);
    lemma_pow256_values();
    lemma_be_round_trip(counter as nat, 8);
    lemma_be_round_trip(ciphertext_len, 2);
    bytes_are_read_most_significant_first(be_bytes(counter as nat, 8));
    bytes_are_read_most_significant_first(be_bytes(ciphertext_len, 2));
    assert(header.subrange(6, 14) =~= be_bytes(counter as nat, 8));
    assert(header.subrange(14, 16) =~= be_bytes(ciphertext_len, 2));
}

/// A nonce is the four bytes of the prefix and the eight of the number; the authenticated data are
/// the transcript's hash, the session and the header.
pub proof fn nonces_and_authenticated_data_are_put_together(
    prefix: Seq<u8>,
    counter: u64,
    transcript_hash: Seq<u8>,
    session_id: Seq<u8>,
    header: Seq<u8>,
)
    requires
        prefix.len() == 4,
    ensures
        ({
            let nonce = nonce_bytes(prefix, counter);
            &&& nonce.len() == 12
            &&& nonce.take(4) == prefix
            &&& counter == 0x100_0000_0000_0000 * nonce[4] + 0x1_0000_0000_0000 * nonce[5]
                + 0x100_0000_0000 * nonce[6] + 0x1_0000_0000 * nonce[7] + 0x100_0000 * nonce[8]
                + 0x1_0000 * nonce[9] + 0x100 * nonce[10] + nonce[11]
        }),
        associated_bytes(transcript_hash, session_id, header) == transcript_hash + session_id
            + header,
{
    let nonce = nonce_bytes(prefix, counter);
    lemma_be_bytes_len(counter as nat, 8);
    lemma_pow256_values();
    lemma_be_round_trip(counter as nat, 8);
    bytes_are_read_most_significant_first(be_bytes(counter as nat, 8));
    assert(nonce.take(4) =~= prefix);
    assert(nonce.subrange(4, 12) =~= be_bytes(counter as nat, 8));
}

/// For five minutes a session sends payloads of at most 16,384 bytes in at most 4,096 frames. A
/// frame is its header and the ciphertext under the sending key, its nonce and the authenticated
/// data; sending one counts it and changes nothing else, and nothing changes where none is sent.
pub proof fn frames_are_sent_within_the_limits(
    session: SessionView,
    elapsed: u128,
    message_type: BluetoothMessageType,
    plaintext: Seq<u8>,
)
    ensures
        ({
            let (outcome, after) = encrypt_outcome(session, elapsed, message_type, plaintext);
            if elapsed > 300_000_000_000 {
                outcome == Err::<Seq<u8>, _>(SecureBluetoothError::SessionExpired) && after
                    == session
            } else if plaintext.len() > 16_384 {
                outcome == Err::<Seq<u8>, _>(SecureBluetoothError::MessageTooLarge) && after
                    == session
            } else if session.tx_counter >= 4_096 {
                outcome == Err::<Seq<u8>, _>(SecureBluetoothError::FrameLimit) && after == session
            } else {
                let counter = (session.tx_counter + 1) as u64;
                let header = header_bytes(message_type, counter, plaintext.len() + 16);
                &&& outcome == Ok::<_, SecureBluetoothError>(
                    header + chacha20poly1305_sealed(
                        session.tx_key,
                        nonce_bytes(session.tx_prefix, counter),
                        session.transcript_hash + session.session_id + header,
                        plaintext,
                    ),
                )
                &&& after == (SessionView { tx_counter: counter, ..session })
            }
        }),
{
}

/// What is read of a frame before its tag is checked: it must be long enough and start with `FTBE`,
/// version 1 and a known class; its number must be the next, and at most 4,096; and its length
/// must be as declared, for a payload of at most 16,384 bytes. The first that fails is the error.
pub proof fn frames_are_examined_in_order(session: SessionView, frame: Seq<u8>)
    ensures
        ({
            let outcome = admitted_frame(session, frame);
            let number = 0x100_0000_0000_0000 * frame[6] + 0x1_0000_0000_0000 * frame[7]
                + 0x100_0000_0000 * frame[8] + 0x1_0000_0000 * frame[9] + 0x100_0000 * frame[10]
                + 0x1_0000 * frame[11] + 0x100 * frame[12] + frame[13];
            let declared = 0x100 * frame[14] + frame[15];
            if frame.len() < 32 || frame[0] != 0x46 || frame[1] != 0x54 || frame[2] != 0x42
                || frame[3] != 0x45 || frame[4] != 1 || frame[5] < 1 || frame[5] > 3 {
                outcome == Err::<(BluetoothMessageType, u64), _>(
                    SecureBluetoothError::InvalidFrame,
                )
            } else if number != session.rx_counter + 1 && !(number == session.rx_counter && number
                == 0xffff_ffff_ffff_ffff) {
                outcome == Err::<(BluetoothMessageType, u64), _>(
                    SecureBluetoothError::ReplayOrOutOfOrder,
                )
            } else if number > 4_096 {
                outcome == Err::<(BluetoothMessageType, u64), _>(SecureBluetoothError::FrameLimit)
            } else if declared < 16 || declared > 16_400 || frame.len() != 16 + declared {
                outcome == Err::<(BluetoothMessageType, u64), _>(
                    SecureBluetoothError::InvalidFrame,
                )
            } else {
                outcome matches Ok((message_type, counter)) && {
                    &&& counter == number
                    &&& frame[5] == 1 <==> message_type is SharedAuth
                    &&& frame[5] == 2 <==> message_type is PeerInfo
                    &&& frame[5] == 3 <==> message_type is UpdateManifest
                }
            }
        }),
{
    if frame.len() >= 32 {
        let magic = frame.subrange(0, 4);
        assert(magic[0] == frame[0] && magic[1] == frame[1] && magic[2] == frame[2] && magic[3]
            == frame[3]);
        if frame[0] == 0x46 && frame[1] == 0x54 && frame[2] == 0x42 && frame[3] == 0x45 {
            assert(magic =~= crate::secure_bluetooth::session::FRAME_MAGIC@);
        }
        let number = frame.subrange(6, 14);
        let declared = frame.subrange(14, 16);
        bytes_are_read_most_significant_first(number);
        bytes_are_read_most_significant_first(declared);
        lemma_be_value_bound(number);
        lemma_pow256_values();
    }
}

/// For five minutes a session receives. An admitted frame is opened under the receiving key, its
/// nonce and the authenticated data; where that succeeds its payload is delivered and its number
/// is the last received, and nothing else changes. Otherwise nothing changes at all.
pub proof fn frames_are_received_once_opened(session: SessionView, elapsed: u128, frame: Seq<u8>)
    ensures
        ({
            let (outcome, after) = decrypt_outcome(session, elapsed, frame);
            if elapsed > 300_000_000_000 {
                outcome == Err::<(BluetoothMessageType, Seq<u8>), _>(
                    SecureBluetoothError::SessionExpired,
                ) && after == session
            } else {
                match admitted_frame(session, frame) {
                    Err(error) => outcome == Err::<(BluetoothMessageType, Seq<u8>), _>(error)
                        && after == session,
                    Ok((message_type, counter)) => match chacha20poly1305_opened(
                        session.rx_key,
                        nonce_bytes(session.rx_prefix, counter),
                        session.transcript_hash + session.session_id + frame.subrange(0, 16),
                        frame.subrange(16, frame.len() as int),
                    ) {
                        None => outcome == Err::<(BluetoothMessageType, Seq<u8>), _>(
                            SecureBluetoothError::Decrypt,
                        ) && after == session,
                        Some(plaintext) => {
                            &&& outcome == Ok::<_, SecureBluetoothError>((message_type, plaintext))
                            &&& after == (SessionView { rx_counter: counter, ..session })
                        },
                    },
                }
            }
        }),
{
}

/// Every refusal has its own sentence.
pub proof fn bluetooth_refusals_are_named(error: SecureBluetoothError)
    ensures
        bluetooth_error_text(error) == (match error {
            SecureBluetoothError::InvalidHello => "invalid Bluetooth handshake message",
            SecureBluetoothError::InvalidPeer => "Bluetooth peer does not match this handshake",
            SecureBluetoothError::KeyAgreement => "Bluetooth key agreement failed",
            SecureBluetoothError::KeyDerivation => "Bluetooth session key derivation failed",
            SecureBluetoothError::AuthenticationMismatch =>
                "Bluetooth authentication numbers did not match",
            SecureBluetoothError::ConfirmationExpired => "Bluetooth confirmation window expired",
            SecureBluetoothError::SessionExpired => "Bluetooth session expired",
            SecureBluetoothError::FrameLimit => "Bluetooth session frame limit reached",
            SecureBluetoothError::MessageTooLarge => "Bluetooth message is too large",
            SecureBluetoothError::InvalidFrame => "invalid encrypted Bluetooth frame",
            SecureBluetoothError::ReplayOrOutOfOrder => "replayed or out-of-order Bluetooth frame",
            SecureBluetoothError::Encrypt => "Bluetooth frame encryption failed",
            SecureBluetoothError::Decrypt => "Bluetooth frame authentication failed",
        })@,
{
}

/// Results are seen as they are.
pub proof fn bluetooth_results_are_seen_as_they_are(
    pairing: Result<BluetoothPairing, SecureBluetoothError>,
    pending: Result<PendingBluetoothSession, SecureBluetoothError>,
    session: Result<SecureBluetoothSession, SecureBluetoothError>,
    frame: Result<Vec<u8>, SecureBluetoothError>,
    payload: Result<(BluetoothMessageType, SecretBytes), SecureBluetoothError>,
)
    ensures
        match pairing {
            Ok(value) => pairing_result(pairing) == Ok::<_, SecureBluetoothError>(value@),
            Err(error) => pairing_result(pairing) == Err::<PairingView, _>(error),
        },
        match pending {
            Ok(value) => pending_result(pending) == Ok::<_, SecureBluetoothError>(value@),
            Err(error) => pending_result(pending) == Err::<PendingView, _>(error),
        },
        match session {
            Ok(value) => session_result(session) == Ok::<_, SecureBluetoothError>(value@),
            Err(error) => session_result(session) == Err::<SessionView, _>(error),
        },
        match frame {
            Ok(value) => frame_result(frame) == Ok::<_, SecureBluetoothError>(value@),
            Err(error) => frame_result(frame) == Err::<Seq<u8>, _>(error),
        },
        match payload {
            Ok((kind, value)) => payload_result(payload) == Ok::<_, SecureBluetoothError>(
                (kind, value@),
            ),
            Err(error) => payload_result(payload) == Err::<(BluetoothMessageType, Seq<u8>), _>(
                error,
            ),
        },
{
}

/// A derivation gives its outcome at the moment at which it was made, and so does a confirmation.
pub proof fn derivations_and_confirmations_give_their_outcomes(
    pairing: PairingView,
    peer: HelloView,
    derivation: Result<PendingView, SecureBluetoothError>,
    pending: PendingView,
    elapsed: u128,
    observed: Seq<char>,
    confirmation: Result<SessionView, SecureBluetoothError>,
    at: Instant,
)
    ensures
        derived(pairing, peer, derivation) ==> match derivation {
            Ok(value) => derive_outcome(pairing, peer, value.created_at) == derivation
                && clock_gave(value.created_at),
            Err(_) => derive_outcome(pairing, peer, at) == derivation,
        },
        confirmed(pending, elapsed, observed, confirmation) ==> match confirmation {
            Ok(value) => confirm_outcome(pending, elapsed, observed, value.created_at)
                == confirmation && clock_gave(value.created_at),
            Err(_) => confirm_outcome(pending, elapsed, observed, at) == confirmation,
        },
{
}

/// Encrypting gives its outcome, whichever frame it makes.
pub proof fn encryptions_give_their_outcomes(
    session: SessionView,
    elapsed: u128,
    message_type: BluetoothMessageType,
    plaintext: Seq<u8>,
    outcome: Result<Seq<u8>, SecureBluetoothError>,
    after: SessionView,
)
    requires
        encrypted(session, elapsed, message_type, plaintext, outcome, after),
    ensures
        (outcome, after) == encrypt_outcome(session, elapsed, message_type, plaintext),
{
}

} // verus!
