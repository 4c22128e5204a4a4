//! The confirmed session and its encrypted frames.
use crate::clock::{clock_measured, elapsed_nanos};
use crate::crypto::{
    chacha20poly1305_open, chacha20poly1305_opened, chacha20poly1305_seal, chacha20poly1305_sealed,
    AEAD_TAG_LEN,
};
use crate::encoding::{
    be_bytes, be_value, copy_array, from_be, lemma_be_bytes_injective, lemma_be_bytes_len,
    lemma_be_round_trip, lemma_pow256_values, to_be,
};
use crate::secrets::{SecretBytes, SecretKey};
use crate::secure_bluetooth::hello::{BluetoothRole, SecureBluetoothError, VERSION};
use std::time::Instant;
use vstd::prelude::*;
use vstd::slice::*;

verus! {

/// The ASCII letters `FTBE`.
pub const FRAME_MAGIC: [u8; 4] = [0x46, 0x54, 0x42, 0x45];

/// Magic, version, message type, counter and ciphertext length.
pub const FRAME_HEADER_LEN: usize = 16;

/// Maximum plaintext carried by one encrypted proximity frame.
pub const MAX_BLUETOOTH_PLAINTEXT_LEN: usize = 16384;

/// Maximum frames in either direction before a fresh handshake is required.
pub const MAX_BLUETOOTH_FRAMES_PER_DIRECTION: u64 = 4096;

/// Confirmed sessions are short-lived and never resume from disk. In nanoseconds: five minutes.
pub const BLUETOOTH_SESSION_LIFETIME: u128 = 300_000_000_000;

/// Message classes allowed on an active proximity session.
///
/// The payload remains opaque to this layer. Callers map these classes to the JSON-Schema
/// payloads for Shared Auth relay, peer information, and signed update-manifest offers. No bearer
/// credential or binary update is allowed to be placed in an advertisement or hello.
#[derive(Debug, Clone, Copy, PartialEq, Eq, Structural)]
pub enum BluetoothMessageType {
    SharedAuth,
    PeerInfo,
    UpdateManifest,
}

/// The byte that stands for a message class in a frame.
pub open spec fn message_byte(message_type: BluetoothMessageType) -> u8 {
    match message_type {
        BluetoothMessageType::SharedAuth => 1,
        BluetoothMessageType::PeerInfo => 2,
        BluetoothMessageType::UpdateManifest => 3,
    }
}

impl BluetoothMessageType {
    pub fn to_byte(self) -> (res: u8)
        ensures
            res == message_byte(self),
    {
        match self {
            BluetoothMessageType::SharedAuth => 1,
            BluetoothMessageType::PeerInfo => 2,
            BluetoothMessageType::UpdateManifest => 3,
        }
    }

    pub fn from_byte(value: u8) -> (res: Result<Self, SecureBluetoothError>)
        ensures
            match res {
                Ok(message_type) => message_byte(message_type) == value,
                Err(error) => error == SecureBluetoothError::InvalidFrame && !(1 <= value <= 3),
            },
    {
        match value {
            1 => Ok(BluetoothMessageType::SharedAuth),
            2 => Ok(BluetoothMessageType::PeerInfo),
            3 => Ok(BluetoothMessageType::UpdateManifest),
            _ => Err(SecureBluetoothError::InvalidFrame),
        }
    }
}

/// The header in front of a ciphertext of `ciphertext_len` bytes.
pub open spec fn header_bytes(
    message_type: BluetoothMessageType,
    counter: u64,
    ciphertext_len: nat,
) -> Seq<u8> {
    FRAME_MAGIC@ + seq![VERSION, message_byte(message_type)] + be_bytes(counter as nat, 8)
        + be_bytes(ciphertext_len, 2)
}

/// The nonce of a frame: the direction's prefix, then the counter.
pub open spec fn nonce_bytes(prefix: Seq<u8>, counter: u64) -> Seq<u8> {
    prefix + be_bytes(counter as nat, 8)
}

/// What a frame's tag authenticates besides the payload.
pub open spec fn associated_bytes(transcript_hash: Seq<u8>, session_id: Seq<u8>, header: Seq<u8>) -> Seq<
    u8,
> {
    transcript_hash + session_id + header
}

/// The frame that carries `plaintext` as number `counter`.
pub open spec fn frame_bytes(
    session: SessionView,
    message_type: BluetoothMessageType,
    counter: u64,
    plaintext: Seq<u8>,
) -> Seq<u8> {
    let header = header_bytes(message_type, counter, plaintext.len() + AEAD_TAG_LEN as nat);
    header + chacha20poly1305_sealed(
        session.tx_key,
        nonce_bytes(session.tx_prefix, counter),
        associated_bytes(session.transcript_hash, session.session_id, header),
        plaintext,
    )
}

/// The number of the next frame to send, or why there is none.
pub open spec fn next_frame(session: SessionView, elapsed: u128, plaintext_len: nat) -> Result<
    u64,
    SecureBluetoothError,
> {
    if elapsed > BLUETOOTH_SESSION_LIFETIME {
        Err(SecureBluetoothError::SessionExpired)
    } else if plaintext_len > MAX_BLUETOOTH_PLAINTEXT_LEN {
        Err(SecureBluetoothError::MessageTooLarge)
    } else if session.tx_counter >= MAX_BLUETOOTH_FRAMES_PER_DIRECTION {
        Err(SecureBluetoothError::FrameLimit)
    } else {
        Ok((session.tx_counter + 1) as u64)
    }
}

/// What encrypting gives, and the session after it, `elapsed` nanoseconds into the session.
pub open spec fn encrypt_outcome(
    session: SessionView,
    elapsed: u128,
    message_type: BluetoothMessageType,
    plaintext: Seq<u8>,
) -> (Result<Seq<u8>, SecureBluetoothError>, SessionView) {
    match next_frame(session, elapsed, plaintext.len()) {
        Err(error) => (Err(error), session),
        Ok(counter) => (
            Ok(frame_bytes(session, message_type, counter, plaintext)),
            SessionView { tx_counter: counter, ..session },
        ),
    }
}

/// What a received frame says before its tag is checked: its message class and its number, or why
/// it is refused.
pub open spec fn admitted_frame(session: SessionView, frame: Seq<u8>) -> Result<
    (BluetoothMessageType, u64),
    SecureBluetoothError,
> {
    let counter = be_value(frame.subrange(6, 14));
    let ciphertext_len = be_value(frame.subrange(14, 16));
    if frame.len() < FRAME_HEADER_LEN + AEAD_TAG_LEN || frame.subrange(0, 4) != FRAME_MAGIC@
        || frame[4] != VERSION || !(1 <= frame[5] <= 3) {
        Err(SecureBluetoothError::InvalidFrame)
    } else if counter != (if session.rx_counter == u64::MAX {
        u64::MAX as nat
    } else {
        (session.rx_counter + 1) as nat
    }) {
        Err(SecureBluetoothError::ReplayOrOutOfOrder)
    } else if counter > MAX_BLUETOOTH_FRAMES_PER_DIRECTION {
        Err(SecureBluetoothError::FrameLimit)
    } else if !(AEAD_TAG_LEN <= ciphertext_len <= MAX_BLUETOOTH_PLAINTEXT_LEN + AEAD_TAG_LEN)
        || frame.len() != FRAME_HEADER_LEN + ciphertext_len {
        Err(SecureBluetoothError::InvalidFrame)
    } else {
        Ok(
            (
                if frame[5] == 1 {
                    BluetoothMessageType::SharedAuth
                } else if frame[5] == 2 {
                    BluetoothMessageType::PeerInfo
                } else {
                    BluetoothMessageType::UpdateManifest
                },
                counter as u64,
            ),
        )
    }
}

/// The payload of an admitted frame, `None` where its tag does not authenticate it.
pub open spec fn opened_frame(session: SessionView, counter: u64, frame: Seq<u8>) -> Option<
    Seq<u8>,
> {
    let header = frame.subrange(0, FRAME_HEADER_LEN as int);
    chacha20poly1305_opened(
        session.rx_key,
        nonce_bytes(session.rx_prefix, counter),
        associated_bytes(session.transcript_hash, session.session_id, header),
        frame.subrange(FRAME_HEADER_LEN as int, frame.len() as int),
    )
}

/// What an admitted frame gives, and the session after it, once its payload was opened or not.
pub open spec fn accept_outcome(
    session: SessionView,
    message_type: BluetoothMessageType,
    counter: u64,
    opened: Option<Seq<u8>>,
) -> (Result<(BluetoothMessageType, Seq<u8>), SecureBluetoothError>, SessionView) {
    match opened {
        Some(plaintext) => (
            Ok((message_type, plaintext)),
            SessionView { rx_counter: counter, ..session },
        ),
        None => (Err(SecureBluetoothError::Decrypt), session),
    }
}

/// What decrypting gives, and the session after it, `elapsed` nanoseconds into the session.
pub open spec fn decrypt_outcome(session: SessionView, elapsed: u128, frame: Seq<u8>) -> (
    Result<(BluetoothMessageType, Seq<u8>), SecureBluetoothError>,
    SessionView,
) {
    if elapsed > BLUETOOTH_SESSION_LIFETIME {
        (Err(SecureBluetoothError::SessionExpired), session)
    } else {
        match admitted_frame(session, frame) {
            Err(error) => (Err(error), session),
            Ok((message_type, counter)) => accept_outcome(
                session,
                message_type,
                counter,
                opened_frame(session, counter, frame),
            ),
        }
    }
}

/// The view of an encryption's result.
pub open spec fn frame_result(res: Result<Vec<u8>, SecureBluetoothError>) -> Result<
    Seq<u8>,
    SecureBluetoothError,
> {
    match res {
        Ok(frame) => Ok(frame@),
        Err(error) => Err(error),
    }
}

/// The view of a decryption's result.
pub open spec fn payload_result(
    res: Result<(BluetoothMessageType, SecretBytes), SecureBluetoothError>,
) -> Result<(BluetoothMessageType, Seq<u8>), SecureBluetoothError> {
    match res {
        Ok((message_type, plaintext)) => Ok((message_type, plaintext@)),
        Err(error) => Err(error),
    }
}

/// A frame's ciphertext opens, under the key and the header that it was sealed with, to its
/// plaintext.
pub open spec fn frame_opens(
    session: SessionView,
    message_type: BluetoothMessageType,
    counter: u64,
    plaintext: Seq<u8>,
) -> bool {
    let header = header_bytes(message_type, counter, plaintext.len() + AEAD_TAG_LEN as nat);
    let nonce = nonce_bytes(session.tx_prefix, counter);
    let aad = associated_bytes(session.transcript_hash, session.session_id, header);
    let sealed = chacha20poly1305_sealed(session.tx_key, nonce, aad, plaintext);
    &&& sealed.len() == plaintext.len() + AEAD_TAG_LEN
    &&& chacha20poly1305_opened(session.tx_key, nonce, aad, sealed) == Some(plaintext)
}

/// `outcome` and `after` are what encrypting gives, and the frame's ciphertext opens to the
/// plaintext.
pub open spec fn encrypted(
    session: SessionView,
    elapsed: u128,
    message_type: BluetoothMessageType,
    plaintext: Seq<u8>,
    outcome: Result<Seq<u8>, SecureBluetoothError>,
    after: SessionView,
) -> bool {
    &&& (outcome, after) == encrypt_outcome(session, elapsed, message_type, plaintext)
    &&& outcome is Ok ==> frame_opens(session, message_type, after.tx_counter, plaintext)
}

/// What `sender` sends next is what `receiver` expects next, under the same keys.
pub open spec fn receives_from(receiver: SessionView, sender: SessionView) -> bool {
    &&& sender.session_id == receiver.session_id
    &&& sender.transcript_hash == receiver.transcript_hash
    &&& sender.tx_key == receiver.rx_key
    &&& sender.tx_prefix == receiver.rx_prefix
    &&& sender.tx_counter == receiver.rx_counter
}

/// The header that was written is the header that is read.
proof fn lemma_header_layout(
    message_type: BluetoothMessageType,
    counter: u64,
    ciphertext_len: nat,
    body: Seq<u8>,
)
    requires
        ciphertext_len < 0x1_0000,
    ensures
        ({
            let header = header_bytes(message_type, counter, ciphertext_len);
            let frame = header + body;
            &&& header.len() == FRAME_HEADER_LEN
            &&& frame.subrange(0, 4) == FRAME_MAGIC@
            &&& frame[4] == VERSION
            &&& frame[5] == message_byte(message_type)
            &&& be_value(frame.subrange(6, 14)) == counter
            &&& be_value(frame.subrange(14, 16)) == ciphertext_len
            &&& frame.subrange(0, 16) == header
            &&& frame.subrange(16, frame.len() as int) == body
        }),
{
    let header = header_bytes(message_type, counter, ciphertext_len);
    let frame = header + body;
    lemma_be_bytes_len(counter as nat, 8);
    lemma_be_bytes_len(ciphertext_len, 2);
    lemma_pow256_values();
    lemma_be_round_trip(counter as nat, 8);
    lemma_be_round_trip(ciphertext_len, 2);
    assert(frame.subrange(0, 4) =~= FRAME_MAGIC@);
    assert(frame.subrange(6, 14) =~= be_bytes(counter as nat, 8));
    assert(frame.subrange(14, 16) =~= be_bytes(ciphertext_len, 2));
    assert(frame.subrange(0, 16) =~= header);
    assert(frame.subrange(16, frame.len() as int) =~= body);
}

/// What a frame's tag authenticates determines its message class, its number and its length, the
/// handshake and the session.
pub proof fn associated_data_binds_the_frame_to_its_session(
    transcript_hash: Seq<u8>,
    session_id: Seq<u8>,
    message_type: BluetoothMessageType,
    counter: u64,
    ciphertext_len: nat,
    other_hash: Seq<u8>,
    other_session_id: Seq<u8>,
    other_type: BluetoothMessageType,
    other_counter: u64,
    other_len: nat,
)
    requires
        transcript_hash.len() == 32,
        other_hash.len() == 32,
        session_id.len() == 16,
        other_session_id.len() == 16,
        ciphertext_len <= u16::MAX,
        other_len <= u16::MAX,
        associated_bytes(
            transcript_hash,
            session_id,
            header_bytes(message_type, counter, ciphertext_len),
        ) == associated_bytes(
            other_hash,
            other_session_id,
            header_bytes(other_type, other_counter, other_len),
        ),
    ensures
        transcript_hash == other_hash,
        session_id == other_session_id,
        message_type == other_type,
        counter == other_counter,
        ciphertext_len == other_len,
{
    let header = header_bytes(message_type, counter, ciphertext_len);
    let other = header_bytes(other_type, other_counter, other_len);
    let a = associated_bytes(transcript_hash, session_id, header);
    let b = associated_bytes(other_hash, other_session_id, other);
    lemma_header_layout(message_type, counter, ciphertext_len, Seq::empty());
    lemma_header_layout(other_type, other_counter, other_len, Seq::empty());
    assert(a.subrange(0, 32) =~= transcript_hash);
    assert(b.subrange(0, 32) =~= other_hash);
    assert(a.subrange(32, 48) =~= session_id);
    assert(b.subrange(32, 48) =~= other_session_id);
    assert(a.subrange(48, 64) =~= header + Seq::<u8>::empty());
    assert(b.subrange(48, 64) =~= other + Seq::<u8>::empty());
}

/// What one end encrypts, the other end decrypts: the receiver gets the message class and the
/// plaintext, and both ends are then ready for the next frame.
pub proof fn receiver_opens_what_the_sender_sealed(
    sender: SessionView,
    receiver: SessionView,
    sent_at: u128,
    received_at: u128,
    message_type: BluetoothMessageType,
    plaintext: Seq<u8>,
    frame: Seq<u8>,
    after: SessionView,
)
    requires
        receives_from(receiver, sender),
        encrypted(sender, sent_at, message_type, plaintext, Ok(frame), after),
        received_at <= BLUETOOTH_SESSION_LIFETIME,
    ensures
        ({
            let (outcome, received) = decrypt_outcome(receiver, received_at, frame);
            &&& outcome == Ok::<_, SecureBluetoothError>((message_type, plaintext))
            &&& receives_from(received, after)
            &&& received.rx_counter == receiver.rx_counter + 1
        }),
{
    let counter = after.tx_counter;
    let header = header_bytes(message_type, counter, plaintext.len() + AEAD_TAG_LEN as nat);
    let sealed = chacha20poly1305_sealed(
        sender.tx_key,
        nonce_bytes(sender.tx_prefix, counter),
        associated_bytes(sender.transcript_hash, sender.session_id, header),
        plaintext,
    );
    lemma_header_layout(message_type, counter, plaintext.len() + AEAD_TAG_LEN as nat, sealed);
}

/// A frame is accepted once: after it was decrypted, the same bytes are a replay.
pub proof fn accepted_frame_is_refused_again(
    session: SessionView,
    first_at: u128,
    second_at: u128,
    frame: Seq<u8>,
)
    requires
        decrypt_outcome(session, first_at, frame).0 is Ok,
        second_at <= BLUETOOTH_SESSION_LIFETIME,
    ensures
        decrypt_outcome(decrypt_outcome(session, first_at, frame).1, second_at, frame) == (
            Err::<(BluetoothMessageType, Seq<u8>), _>(SecureBluetoothError::ReplayOrOutOfOrder),
            decrypt_outcome(session, first_at, frame).1,
        ),
{
}

/// A refused frame leaves the session as it was: tampering does not advance the receive counter.
pub proof fn refused_frame_changes_nothing(session: SessionView, elapsed: u128, frame: Seq<u8>)
    requires
        decrypt_outcome(session, elapsed, frame).0 is Err,
    ensures
        decrypt_outcome(session, elapsed, frame).1 == session,
{
}

/// Once its lifetime has passed a session neither sends nor receives, and it cannot be extended:
/// no frame moves the moment from which its lifetime is measured.
pub proof fn expired_sessions_carry_nothing(
    session: SessionView,
    elapsed: u128,
    message_type: BluetoothMessageType,
    plaintext: Seq<u8>,
    frame: Seq<u8>,
)
    ensures
        elapsed > BLUETOOTH_SESSION_LIFETIME ==> encrypt_outcome(
            session,
            elapsed,
            message_type,
            plaintext,
        ) == (Err::<Seq<u8>, _>(SecureBluetoothError::SessionExpired), session),
        elapsed > BLUETOOTH_SESSION_LIFETIME ==> decrypt_outcome(session, elapsed, frame) == (
            Err::<(BluetoothMessageType, Seq<u8>), _>(SecureBluetoothError::SessionExpired),
            session,
        ),
        encrypt_outcome(session, elapsed, message_type, plaintext).1.created_at
            == session.created_at,
        decrypt_outcome(session, elapsed, frame).1.created_at == session.created_at,
{
}

/// No two frames that one session sends are sealed under the same nonce.
pub proof fn nonces_never_repeat(prefix: Seq<u8>, first: u64, second: u64)
    requires
        first != second,
    ensures
        nonce_bytes(prefix, first) != nonce_bytes(prefix, second),
{
    lemma_pow256_values();
    lemma_be_bytes_len(first as nat, 8);
    lemma_be_bytes_len(second as nat, 8);
    if nonce_bytes(prefix, first) == nonce_bytes(prefix, second) {
        let n = prefix.len() as int;
        assert(nonce_bytes(prefix, first).subrange(n, n + 8) =~= be_bytes(first as nat, 8));
        assert(nonce_bytes(prefix, second).subrange(n, n + 8) =~= be_bytes(second as nat, 8));
        lemma_be_bytes_injective(first as nat, second as nat, 8);
    }
}

/// A nonce determines the direction's prefix and the frame's number: frames under different
/// prefixes, or of different numbers, never share one.
pub proof fn nonce_determines_prefix_and_number(
    prefix: Seq<u8>,
    counter: u64,
    other_prefix: Seq<u8>,
    other_counter: u64,
)
    requires
        prefix.len() == 4,
        other_prefix.len() == 4,
        nonce_bytes(prefix, counter) == nonce_bytes(other_prefix, other_counter),
    ensures
        prefix == other_prefix,
        counter == other_counter,
{
    lemma_be_bytes_len(counter as nat, 8);
    lemma_be_bytes_len(other_counter as nat, 8);
    assert(nonce_bytes(prefix, counter).subrange(0, 4) =~= prefix);
    assert(nonce_bytes(other_prefix, other_counter).subrange(0, 4) =~= other_prefix);
    if counter != other_counter {
        nonces_never_repeat(prefix, counter, other_counter);
    }
}

/// Each frame that is sent takes the next number, and none is numbered over the limit.
pub proof fn sent_frames_count_up_to_the_limit(
    session: SessionView,
    elapsed: u128,
    message_type: BluetoothMessageType,
    plaintext: Seq<u8>,
)
    ensures
        ({
            let (outcome, after) = encrypt_outcome(session, elapsed, message_type, plaintext);
            &&& outcome is Ok ==> after.tx_counter == session.tx_counter + 1 && after.tx_counter
                <= MAX_BLUETOOTH_FRAMES_PER_DIRECTION
            &&& outcome is Err ==> after == session
        }),
{
}

/// A frame's header.
pub fn frame_header(message_type: BluetoothMessageType, counter: u64, ciphertext_len: usize) -> (res:
    Result<[u8; 16], SecureBluetoothError>)
    ensures
        match res {
            Ok(header) => ciphertext_len <= u16::MAX && header@ == header_bytes(
                message_type,
                counter,
                ciphertext_len as nat,
            ),
            Err(error) => ciphertext_len > u16::MAX && error
                == SecureBluetoothError::MessageTooLarge,
        },
{
    if ciphertext_len > 0xffff {
        return Err(SecureBluetoothError::MessageTooLarge);
    }
    let c = to_be(counter, 8);
    let l = to_be(ciphertext_len as u64, 2);
    let header: [u8; 16] = [
        FRAME_MAGIC[0],
        FRAME_MAGIC[1],
        FRAME_MAGIC[2],
        FRAME_MAGIC[3],
        VERSION,
        message_type.to_byte(),
        c[0],
        c[1],
        c[2],
        c[3],
        c[4],
        c[5],
        c[6],
        c[7],
        l[0],
        l[1],
    ];
    assert(header@ =~= header_bytes(message_type, counter, ciphertext_len as nat));
    Ok(header)
}

/// A frame's nonce.
pub fn nonce(prefix: [u8; 4], counter: u64) -> (res: [u8; 12])
    ensures
        res@ == nonce_bytes(prefix@, counter),
{
    let c = to_be(counter, 8);
    let res: [u8; 12] = [
        prefix[0],
        prefix[1],
        prefix[2],
        prefix[3],
        c[0],
        c[1],
        c[2],
        c[3],
        c[4],
        c[5],
        c[6],
        c[7],
    ];
    assert(res@ =~= nonce_bytes(prefix@, counter));
    res
}

/// What a frame's tag authenticates besides the payload.
pub fn associated_data(transcript_hash: &[u8; 32], session_id: &[u8; 16], header: &[u8]) -> (res:
    Vec<u8>)
    ensures
        res@ == associated_bytes(transcript_hash@, session_id@, header@),
{
    let mut aad: Vec<u8> = Vec::new();
    aad.extend_from_slice(transcript_hash);
    aad.extend_from_slice(session_id);
    aad.extend_from_slice(header);
    assert(aad@ =~= associated_bytes(transcript_hash@, session_id@, header@));
    aad
}

/// A frame put together.
pub fn join_frame(header: &[u8; 16], ciphertext: &[u8]) -> (res: Vec<u8>)
    ensures
        res@ == header@ + ciphertext@,
{
    let mut frame: Vec<u8> = Vec::new();
    frame.extend_from_slice(header);
    frame.extend_from_slice(ciphertext);
    assert(frame@ =~= header@ + ciphertext@);
    frame
}

/// What a frame of this class delivers once its payload was opened or not.
pub fn opened_payload(message_type: BluetoothMessageType, opened: Option<Vec<u8>>) -> (res: Result<
    (BluetoothMessageType, SecretBytes),
    SecureBluetoothError,
>)
    ensures
        payload_result(res) == (match opened {
            Some(plaintext) => Ok((message_type, plaintext@)),
            None => Err(SecureBluetoothError::Decrypt),
        }),
{
    match opened {
        Some(plaintext) => Ok((message_type, SecretBytes::new(plaintext))),
        None => Err(SecureBluetoothError::Decrypt),
    }
}

/// The confirmed session of one device.
#[verifier::ext_equal]
pub struct SessionView {
    pub local_role: BluetoothRole,
    pub session_id: Seq<u8>,
    pub transcript_hash: Seq<u8>,
    pub tx_key: Seq<u8>,
    pub rx_key: Seq<u8>,
    pub tx_prefix: Seq<u8>,
    pub rx_prefix: Seq<u8>,
    pub tx_counter: u64,
    pub rx_counter: u64,
    /// The reading of the clock from which the session's lifetime is measured.
    pub created_at: Instant,
}

/// Confirmed, short-lived encrypted session layered over untrusted Bluetooth.
pub struct SecureBluetoothSession {
    local_role: BluetoothRole,
    session_id: [u8; 16],
    transcript_hash: [u8; 32],
    tx_key: SecretKey,
    rx_key: SecretKey,
    tx_prefix: [u8; 4],
    rx_prefix: [u8; 4],
    tx_counter: u64,
    rx_counter: u64,
    created_at: Instant,
}

impl View for SecureBluetoothSession {
    type V = SessionView;

    closed spec fn view(&self) -> SessionView {
        SessionView {
            local_role: self.local_role,
            session_id: self.session_id@,
            transcript_hash: self.transcript_hash@,
            tx_key: self.tx_key@,
            rx_key: self.rx_key@,
            tx_prefix: self.tx_prefix@,
            rx_prefix: self.rx_prefix@,
            tx_counter: self.tx_counter,
            rx_counter: self.rx_counter,
            created_at: self.created_at,
        }
    }
}

impl SecureBluetoothSession {
    pub(crate) fn start(
        local_role: BluetoothRole,
        session_id: [u8; 16],
        transcript_hash: [u8; 32],
        tx_key: SecretKey,
        rx_key: SecretKey,
        tx_prefix: [u8; 4],
        rx_prefix: [u8; 4],
        created_at: Instant,
    ) -> (res: Self)
        ensures
            res@ == (SessionView {
                local_role,
                session_id: session_id@,
                transcript_hash: transcript_hash@,
                tx_key: tx_key@,
                rx_key: rx_key@,
                tx_prefix: tx_prefix@,
                rx_prefix: rx_prefix@,
                tx_counter: 0,
                rx_counter: 0,
                created_at,
            }),
    {
        SecureBluetoothSession {
            local_role,
            session_id,
            transcript_hash,
            tx_key,
            rx_key,
            tx_prefix,
            rx_prefix,
            tx_counter: 0,
            rx_counter: 0,
            created_at,
        }
    }

    pub fn local_role(&self) -> (res: BluetoothRole)
        ensures
            res == self@.local_role,
    {
        self.local_role
    }

    /// Encrypt one opaque application payload into a canonical frame.
    pub fn encrypt(&mut self, message_type: BluetoothMessageType, plaintext: &[u8]) -> (res: Result<
        Vec<u8>,
        SecureBluetoothError,
    >)
        ensures
            exists|elapsed: u128|
                clock_measured(old(self)@.created_at, elapsed) && #[trigger] encrypted(
                    old(self)@,
                    elapsed,
                    message_type,
                    plaintext@,
                    frame_result(res),
                    final(self)@,
                ),
            final(self)@.created_at == old(self)@.created_at,
    {
        let elapsed: u128 = elapsed_nanos(&self.created_at);
        self.encrypt_after(elapsed, message_type, plaintext)
    }

    /// Encrypt one payload, `elapsed` nanoseconds into the session.
    pub fn encrypt_after(
        &mut self,
        elapsed: u128,
        message_type: BluetoothMessageType,
        plaintext: &[u8],
    ) -> (res: Result<Vec<u8>, SecureBluetoothError>)
        ensures
            encrypted(
                old(self)@,
                elapsed,
                message_type,
                plaintext@,
                frame_result(res),
                final(self)@,
            ),
    {
        let counter: u64 = match self.next_counter(elapsed, plaintext.len()) {
            Ok(counter) => counter,
            Err(error) => return Err(error),
        };
        let header = match frame_header(message_type, counter, plaintext.len() + AEAD_TAG_LEN) {
            Ok(header) => header,
            Err(error) => return Err(error),
        };
        let nonce = nonce(self.tx_prefix, counter);
        let aad = associated_data(&self.transcript_hash, &self.session_id, &header);
        let ciphertext = match chacha20poly1305_seal(
            self.tx_key.as_array(),
            &nonce,
            aad.as_slice(),
            plaintext,
        ) {
            Some(ciphertext) => ciphertext,
            None => return Err(SecureBluetoothError::Encrypt),
        };
        self.tx_counter = counter;
        Ok(join_frame(&header, ciphertext.as_slice()))
    }

    /// The number of the next frame to send, or why there is none.
    pub fn next_counter(&self, elapsed: u128, plaintext_len: usize) -> (res: Result<
        u64,
        SecureBluetoothError,
    >)
        ensures
            res == next_frame(self@, elapsed, plaintext_len as nat),
    {
        match Self::ensure_active(elapsed) {
            Ok(()) => (),
            Err(error) => return Err(error),
        }
        if plaintext_len > MAX_BLUETOOTH_PLAINTEXT_LEN {
            return Err(SecureBluetoothError::MessageTooLarge);
        }
        match self.tx_counter.checked_add(1) {
            None => Err(SecureBluetoothError::FrameLimit),
            Some(counter) => if counter > MAX_BLUETOOTH_FRAMES_PER_DIRECTION {
                Err(SecureBluetoothError::FrameLimit)
            } else {
                Ok(counter)
            },
        }
    }

    /// Decrypt one complete frame. Counters must be exact and advance only after authentication
    /// succeeds, preventing replay and reordering.
    pub fn decrypt(&mut self, frame: &[u8]) -> (res: Result<
        (BluetoothMessageType, SecretBytes),
        SecureBluetoothError,
    >)
        ensures
            exists|elapsed: u128|
                clock_measured(old(self)@.created_at, elapsed) && (
                    payload_result(res),
                    final(self)@,
                ) == #[trigger] decrypt_outcome(old(self)@, elapsed, frame@),
            final(self)@.created_at == old(self)@.created_at,
    {
        let elapsed: u128 = elapsed_nanos(&self.created_at);
        self.decrypt_after(elapsed, frame)
    }

    /// Decrypt one complete frame, `elapsed` nanoseconds into the session.
    pub fn decrypt_after(&mut self, elapsed: u128, frame: &[u8]) -> (res: Result<
        (BluetoothMessageType, SecretBytes),
        SecureBluetoothError,
    >)
        ensures
            (payload_result(res), final(self)@) == decrypt_outcome(old(self)@, elapsed, frame@),
    {
        match Self::ensure_active(elapsed) {
            Ok(()) => (),
            Err(error) => return Err(error),
        }
        let (message_type, counter) = match self.examine(frame) {
            Ok(admitted) => admitted,
            Err(error) => return Err(error),
        };
        let header = slice_subrange(frame, 0, FRAME_HEADER_LEN);
        let ciphertext = slice_subrange(frame, FRAME_HEADER_LEN, frame.len());
        let nonce = nonce(self.rx_prefix, counter);
        let aad = associated_data(&self.transcript_hash, &self.session_id, header);
        let opened = chacha20poly1305_open(
            self.rx_key.as_array(),
            &nonce,
            aad.as_slice(),
            ciphertext,
        );
        let payload = opened_payload(message_type, opened);
        if payload.is_ok() {
            self.rx_counter = counter;
        }
        payload
    }

    /// The message class and number of a received frame whose tag is not yet checked.
    pub fn examine(&self, frame: &[u8]) -> (res: Result<
        (BluetoothMessageType, u64),
        SecureBluetoothError,
    >)
        ensures
            res == admitted_frame(self@, frame@),
    {
        if frame.len() < FRAME_HEADER_LEN + AEAD_TAG_LEN {
            return Err(SecureBluetoothError::InvalidFrame);
        }
        let magic: [u8; 4] = copy_array(frame, 0);
        if magic[0] != FRAME_MAGIC[0] || magic[1] != FRAME_MAGIC[1] || magic[2] != FRAME_MAGIC[2]
            || magic[3] != FRAME_MAGIC[3] || frame[4] != VERSION {
            return Err(SecureBluetoothError::InvalidFrame);
        }
        assert(magic@ =~= FRAME_MAGIC@);
        let message_type = match BluetoothMessageType::from_byte(frame[5]) {
            Ok(message_type) => message_type,
            Err(error) => return Err(error),
        };
        proof {
            lemma_pow256_values();
        }
        let counter: u64 = from_be(slice_subrange(frame, 6, 14));
        let ciphertext_len: usize = from_be(slice_subrange(frame, 14, 16)) as usize;
        if counter != self.rx_counter.saturating_add(1) {
            return Err(SecureBluetoothError::ReplayOrOutOfOrder);
        }
        if counter > MAX_BLUETOOTH_FRAMES_PER_DIRECTION {
            return Err(SecureBluetoothError::FrameLimit);
        }
        if ciphertext_len < AEAD_TAG_LEN || ciphertext_len > MAX_BLUETOOTH_PLAINTEXT_LEN
            + AEAD_TAG_LEN || frame.len() != FRAME_HEADER_LEN + ciphertext_len {
            return Err(SecureBluetoothError::InvalidFrame);
        }
        Ok((message_type, counter))
    }

    fn ensure_active(elapsed: u128) -> (res: Result<(), SecureBluetoothError>)
        ensures
            res == (if elapsed > BLUETOOTH_SESSION_LIFETIME {
                Err(SecureBluetoothError::SessionExpired)
            } else {
                Ok(())
            }),
    {
        if elapsed > BLUETOOTH_SESSION_LIFETIME {
            Err(SecureBluetoothError::SessionExpired)
        } else {
            Ok(())
        }
    }
}

} // verus!
