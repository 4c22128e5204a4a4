//! The key agreement between two devices and the confirmation of its authentication string.
use crate::clock::{clock_gave, clock_measured, elapsed_nanos, instant_now};
use crate::crypto::{
    constant_time_eq, drawn_bytes, drawn_private_key, hkdf_sha256, hkdf_sha256_output,
    random_bytes, random_private_key, sha256, sha256_digest, x25519_public, x25519_public_key,
    x25519_shared, x25519_shared_secret,
};
use crate::encoding::{
    all_zero, be_bytes, be_value, copy_array, from_be, lemma_be_bytes_injective,
    lemma_be_bytes_len, lemma_pow256_values, pow256, to_be,
};
use crate::secrets::{SecretBytes, SecretKey};
use crate::secure_bluetooth::hello::{
    device_id_is_valid, hello_bytes, hello_encoding_is_injective, is_zero_16, is_zero_32,
    lemma_hello_layout, opposite_role, valid_device_id, valid_hello, BluetoothHello, BluetoothRole,
    HelloView, SecureBluetoothError,
};
use crate::secure_bluetooth::session::{receives_from, SecureBluetoothSession, SessionView};
use crate::text::{all_digits, ascii_text, lemma_utf8_injective, only_digits, same_text};
use std::time::Instant;
use vstd::prelude::*;
use vstd::slice::*;
use vstd::string::*;
use vstd::utf8::*;

verus! {

/// The ASCII text `ftnl-secure-bluetooth-v1`.
pub const PROTOCOL_LABEL: [u8; 24] = [
    0x66, 0x74, 0x6e, 0x6c, 0x2d, 0x73, 0x65, 0x63, 0x75, 0x72, 0x65, 0x2d, 0x62, 0x6c, 0x75, 0x65,
    0x74, 0x6f, 0x6f, 0x74, 0x68, 0x2d, 0x76, 0x31,
];

/// Two keys, two nonce prefixes and 32 bytes for the authentication string.
pub const KEY_MATERIAL_LEN: usize = 104;

/// A user must compare the SAS within this window, in nanoseconds: two minutes.
pub const BLUETOOTH_CONFIRMATION_TIMEOUT: u128 = 120_000_000_000;

/// A handshake's public half and its private key.
#[verifier::ext_equal]
pub struct PairingView {
    pub hello: HelloView,
    pub secret: Seq<u8>,
}

/// The derived but unconfirmed session of one device.
#[verifier::ext_equal]
pub struct PendingView {
    pub local_role: BluetoothRole,
    pub session_id: Seq<u8>,
    pub local_device_id: Seq<char>,
    pub peer_device_id: Seq<char>,
    pub transcript_hash: Seq<u8>,
    pub tx_key: Seq<u8>,
    pub rx_key: Seq<u8>,
    pub tx_prefix: Seq<u8>,
    pub rx_prefix: Seq<u8>,
    pub sas: Seq<char>,
    /// The reading of the clock from which the time to confirm is measured.
    pub created_at: Instant,
}

/// The pairing publishes the public key of its private key.
pub open spec fn valid_pairing(p: PairingView) -> bool {
    p.secret.len() == 32 && p.hello.public_key == x25519_public_key(p.secret)
}

/// What both devices hash: the label, then each hello behind its length, initiator first.
pub open spec fn transcript_bytes(initiator: HelloView, responder: HelloView) -> Seq<u8> {
    let first = hello_bytes(initiator);
    let second = hello_bytes(responder);
    PROTOCOL_LABEL@ + be_bytes(first.len(), 2) + first + be_bytes(second.len(), 2) + second
}

/// The transcript as the device with hello `own` sees it.
pub open spec fn transcript_of(own: HelloView, peer: HelloView) -> Seq<u8> {
    match own.role {
        BluetoothRole::Initiator => transcript_bytes(own, peer),
        BluetoothRole::Responder => transcript_bytes(peer, own),
    }
}

/// The peer takes the other role in the same session, and is another device with another key.
pub open spec fn peer_matches(own: HelloView, peer: HelloView) -> bool {
    &&& peer.role == opposite_role(own.role)
    &&& peer.session_id == own.session_id
    &&& peer.device_id != own.device_id
    &&& peer.public_key != own.public_key
}

/// The six decimal digits of a number below a million.
pub open spec fn six_digits(n: nat) -> Seq<char> {
    seq![
        (48 + n / 100_000 % 10) as char,
        (48 + n / 10_000 % 10) as char,
        (48 + n / 1_000 % 10) as char,
        (48 + n / 100 % 10) as char,
        (48 + n / 10 % 10) as char,
        (48 + n % 10) as char,
    ]
}

/// The session that derived key material gives the device with hello `own`. The initiator sends
/// under the first key and prefix, the responder under the second.
pub open spec fn pending_session(
    own: HelloView,
    peer: HelloView,
    transcript_hash: Seq<u8>,
    material: Seq<u8>,
    created_at: Instant,
) -> PendingView {
    let initiates = own.role == BluetoothRole::Initiator;
    let initiator_key = material.subrange(0, 32);
    let responder_key = material.subrange(32, 64);
    let initiator_prefix = material.subrange(64, 68);
    let responder_prefix = material.subrange(68, 72);
    PendingView {
        local_role: own.role,
        session_id: own.session_id,
        local_device_id: own.device_id,
        peer_device_id: peer.device_id,
        transcript_hash,
        tx_key: if initiates { initiator_key } else { responder_key },
        rx_key: if initiates { responder_key } else { initiator_key },
        tx_prefix: if initiates { initiator_prefix } else { responder_prefix },
        rx_prefix: if initiates { responder_prefix } else { initiator_prefix },
        sas: six_digits(be_value(material.subrange(72, 76)) % 1_000_000),
        created_at,
    }
}

/// Why a pairing derives nothing from a peer's hello, if it does not.
pub open spec fn derive_error(pairing: PairingView, peer: HelloView) -> Option<
    SecureBluetoothError,
> {
    if !valid_hello(pairing.hello) || !valid_hello(peer) {
        Some(SecureBluetoothError::InvalidHello)
    } else if !peer_matches(pairing.hello, peer) {
        Some(SecureBluetoothError::InvalidPeer)
    } else if all_zero(x25519_shared_secret(pairing.secret, peer.public_key)) {
        Some(SecureBluetoothError::KeyAgreement)
    } else {
        None
    }
}

/// What a pairing derives from a peer's hello at that reading of the clock.
pub open spec fn derive_outcome(
    pairing: PairingView,
    peer: HelloView,
    created_at: Instant,
) -> Result<PendingView, SecureBluetoothError> {
    let shared = x25519_shared_secret(pairing.secret, peer.public_key);
    let hash = sha256_digest(transcript_of(pairing.hello, peer));
    match derive_error(pairing, peer) {
        Some(error) => Err(error),
        None => Ok(
            pending_session(
                pairing.hello,
                peer,
                hash,
                hkdf_sha256_output(hash, shared, PROTOCOL_LABEL@, KEY_MATERIAL_LEN as nat),
                created_at,
            ),
        ),
    }
}

/// Every holder of a private key behind `public` shares the same secret with `secret`'s holder.
pub open spec fn secret_is_shared(secret: Seq<u8>, public: Seq<u8>) -> bool {
    forall|other: Seq<u8>|
        other.len() == 32 && public == #[trigger] x25519_public_key(other) ==>
            x25519_shared_secret(secret, public) == x25519_shared_secret(
            other,
            x25519_public_key(secret),
        )
}

/// `outcome` is what the pairing derives from the peer's hello, with a secret that the peer
/// shares. The time to confirm is measured from a reading of the clock.
pub open spec fn derived(
    pairing: PairingView,
    peer: HelloView,
    outcome: Result<PendingView, SecureBluetoothError>,
) -> bool {
    match outcome {
        Ok(pending) => {
            &&& outcome == derive_outcome(pairing, peer, pending.created_at)
            &&& clock_gave(pending.created_at)
            &&& secret_is_shared(pairing.secret, peer.public_key)
        },
        Err(error) => derive_error(pairing, peer) == Some(error),
    }
}

/// The confirmed session that a pending session starts as at that reading of the clock.
pub open spec fn session_start(pending: PendingView, created_at: Instant) -> SessionView {
    SessionView {
        local_role: pending.local_role,
        session_id: pending.session_id,
        transcript_hash: pending.transcript_hash,
        tx_key: pending.tx_key,
        rx_key: pending.rx_key,
        tx_prefix: pending.tx_prefix,
        rx_prefix: pending.rx_prefix,
        tx_counter: 0,
        rx_counter: 0,
        created_at,
    }
}

/// Why confirming `observed` fails, if it does, `elapsed` nanoseconds after the derivation.
pub open spec fn confirm_error(pending: PendingView, elapsed: u128, observed: Seq<char>) -> Option<
    SecureBluetoothError,
> {
    if elapsed > BLUETOOTH_CONFIRMATION_TIMEOUT {
        Some(SecureBluetoothError::ConfirmationExpired)
    } else if observed.len() != 6 || !all_digits(observed) || observed != pending.sas {
        Some(SecureBluetoothError::AuthenticationMismatch)
    } else {
        None
    }
}

/// What confirming `observed` gives, `elapsed` nanoseconds after the derivation, with a session
/// that starts at that reading of the clock.
pub open spec fn confirm_outcome(
    pending: PendingView,
    elapsed: u128,
    observed: Seq<char>,
    created_at: Instant,
) -> Result<SessionView, SecureBluetoothError> {
    match confirm_error(pending, elapsed, observed) {
        Some(error) => Err(error),
        None => Ok(session_start(pending, created_at)),
    }
}

/// `outcome` is what confirming `observed` gives. The session's lifetime is measured from a
/// reading of the clock.
pub open spec fn confirmed(
    pending: PendingView,
    elapsed: u128,
    observed: Seq<char>,
    outcome: Result<SessionView, SecureBluetoothError>,
) -> bool {
    match outcome {
        Ok(session) => {
            &&& outcome == confirm_outcome(pending, elapsed, observed, session.created_at)
            &&& clock_gave(session.created_at)
        },
        Err(error) => confirm_error(pending, elapsed, observed) == Some(error),
    }
}

/// The two pending sessions are the two ends of one handshake: what one sends under, the other
/// receives under, and both show the same authentication string.
pub open spec fn pending_ends(a: PendingView, b: PendingView) -> bool {
    &&& b.local_role == opposite_role(a.local_role)
    &&& a.session_id == b.session_id
    &&& a.transcript_hash == b.transcript_hash
    &&& a.local_device_id == b.peer_device_id
    &&& a.peer_device_id == b.local_device_id
    &&& a.tx_key == b.rx_key
    &&& a.rx_key == b.tx_key
    &&& a.tx_prefix == b.rx_prefix
    &&& a.rx_prefix == b.tx_prefix
    &&& a.sas == b.sas
}

/// The transcript determines both hellos: keys derived from it are bound to every field of both.
pub proof fn transcript_determines_both_hellos(
    initiator: HelloView,
    responder: HelloView,
    other_initiator: HelloView,
    other_responder: HelloView,
)
    requires
        valid_hello(initiator),
        valid_hello(responder),
        valid_hello(other_initiator),
        valid_hello(other_responder),
        transcript_bytes(initiator, responder) == transcript_bytes(
            other_initiator,
            other_responder,
        ),
    ensures
        initiator == other_initiator,
        responder == other_responder,
{
    let transcript = transcript_bytes(initiator, responder);
    lemma_transcript_layout(initiator, responder);
    lemma_transcript_layout(other_initiator, other_responder);
    lemma_be_bytes_injective(
        hello_bytes(initiator).len(),
        hello_bytes(other_initiator).len(),
        2,
    );
    hello_encoding_is_injective(initiator, other_initiator);
    hello_encoding_is_injective(responder, other_responder);
}

/// Where the parts of a transcript lie.
pub(crate) proof fn lemma_transcript_layout(initiator: HelloView, responder: HelloView)
    requires
        valid_hello(initiator),
        valid_hello(responder),
    ensures
        ({
            let transcript = transcript_bytes(initiator, responder);
            let n = hello_bytes(initiator).len() as int;
            let m = hello_bytes(responder).len() as int;
            &&& n < pow256(2) && m < pow256(2)
            &&& transcript.len() == 28 + n + m
            &&& transcript.subrange(24, 26) == be_bytes(n as nat, 2)
            &&& transcript.subrange(26, 26 + n) == hello_bytes(initiator)
            &&& transcript.subrange(28 + n, 28 + n + m) == hello_bytes(responder)
        }),
{
    let transcript = transcript_bytes(initiator, responder);
    let n = hello_bytes(initiator).len() as int;
    let m = hello_bytes(responder).len() as int;
    lemma_hello_layout(initiator);
    lemma_hello_layout(responder);
    lemma_pow256_values();
    lemma_be_bytes_len(n as nat, 2);
    lemma_be_bytes_len(m as nat, 2);
    assert(transcript.subrange(24, 26) =~= be_bytes(n as nat, 2));
    assert(transcript.subrange(26, 26 + n) =~= hello_bytes(initiator));
    assert(transcript.subrange(28 + n, 28 + n + m) =~= hello_bytes(responder));
}

/// Where two pairings derive from each other's hellos, both derive, and they derive the two ends
/// of one session with one authentication string.
pub proof fn peers_derive_the_ends_of_one_session(
    a: PairingView,
    b: PairingView,
    from_a: PendingView,
    from_b: Result<PendingView, SecureBluetoothError>,
)
    requires
        valid_pairing(a),
        valid_pairing(b),
        derived(a, b.hello, Ok(from_a)),
        derived(b, a.hello, from_b),
    ensures
        from_b matches Ok(pending) && pending_ends(from_a, pending),
{
    assert(x25519_shared_secret(a.secret, b.hello.public_key) == x25519_shared_secret(
        b.secret,
        x25519_public_key(a.secret),
    ));
    assert(transcript_of(a.hello, b.hello) == transcript_of(b.hello, a.hello));
}

/// The authentication string that a derivation shows is the one that its confirmation accepts
/// in time, and no other is accepted.
pub proof fn confirmation_accepts_the_shown_string_alone(
    own: HelloView,
    peer: HelloView,
    transcript_hash: Seq<u8>,
    material: Seq<u8>,
    derived_at: Instant,
    elapsed: u128,
    observed: Seq<char>,
    confirmed_at: Instant,
)
    ensures
        ({
            let pending = pending_session(own, peer, transcript_hash, material, derived_at);
            confirm_outcome(pending, elapsed, observed, confirmed_at) is Ok <==> elapsed
                <= BLUETOOTH_CONFIRMATION_TIMEOUT && observed == pending.sas
        }),
{
}

/// A late confirmation fails, whatever was observed.
pub proof fn late_confirmations_fail(
    pending: PendingView,
    elapsed: u128,
    observed: Seq<char>,
    outcome: Result<SessionView, SecureBluetoothError>,
)
    requires
        elapsed > BLUETOOTH_CONFIRMATION_TIMEOUT,
        confirmed(pending, elapsed, observed, outcome),
    ensures
        outcome == Err::<SessionView, _>(SecureBluetoothError::ConfirmationExpired),
{
}

/// Once both ends are confirmed, each receives what the other sends, whenever each of them was
/// confirmed.
pub proof fn confirmed_ends_receive_from_each_other(
    a: PendingView,
    b: PendingView,
    a_confirmed_at: Instant,
    b_confirmed_at: Instant,
)
    requires
        pending_ends(a, b),
    ensures
        receives_from(session_start(a, a_confirmed_at), session_start(b, b_confirmed_at)),
        receives_from(session_start(b, b_confirmed_at), session_start(a, a_confirmed_at)),
{
}

/// The view of a derivation's result.
pub open spec fn pending_result(
    res: Result<PendingBluetoothSession, SecureBluetoothError>,
) -> Result<PendingView, SecureBluetoothError> {
    match res {
        Ok(pending) => Ok(pending@),
        Err(error) => Err(error),
    }
}

/// The view of a confirmation's result.
pub open spec fn session_result(
    res: Result<SecureBluetoothSession, SecureBluetoothError>,
) -> Result<SessionView, SecureBluetoothError> {
    match res {
        Ok(session) => Ok(session@),
        Err(error) => Err(error),
    }
}

/// The transcript that both devices hash.
pub fn handshake_transcript(initiator: &BluetoothHello, responder: &BluetoothHello) -> (res: Vec<
    u8,
>)
    ensures
        res@ == transcript_bytes(initiator@, responder@),
{
    let first = initiator.encode();
    let second = responder.encode();
    let first_len = to_be(first.len() as u64, 2);
    let second_len = to_be(second.len() as u64, 2);
    let mut transcript: Vec<u8> = Vec::new();
    transcript.extend_from_slice(&PROTOCOL_LABEL);
    transcript.extend_from_slice(first_len.as_slice());
    transcript.extend_from_slice(first.as_slice());
    transcript.extend_from_slice(second_len.as_slice());
    transcript.extend_from_slice(second.as_slice());
    assert(transcript@ =~= transcript_bytes(initiator@, responder@));
    transcript
}

/// The six digits of a number below a million.
pub fn format_sas(number: u64) -> (res: String)
    requires
        number < 1_000_000,
    ensures
        res@ == six_digits(number as nat),
{
    let digits: [u8; 6] = [
        48 + (number / 100_000 % 10) as u8,
        48 + (number / 10_000 % 10) as u8,
        48 + (number / 1_000 % 10) as u8,
        48 + (number / 100 % 10) as u8,
        48 + (number / 10 % 10) as u8,
        48 + (number % 10) as u8,
    ];
    let res = ascii_text(&digits);
    assert(res@ =~= six_digits(number as nat));
    res
}

/// One-use local handshake state. The private key is consumed by `derive`.
pub struct BluetoothPairing {
    hello: BluetoothHello,
    secret: SecretKey,
}

impl View for BluetoothPairing {
    type V = PairingView;

    closed spec fn view(&self) -> PairingView {
        PairingView { hello: self.hello@, secret: self.secret@ }
    }
}

/// What a pairing built from these parts is, or why none is built.
pub open spec fn pairing_outcome(
    role: BluetoothRole,
    device_id: Seq<char>,
    session_id: Seq<u8>,
    contribution: Seq<u8>,
    private_key: Seq<u8>,
) -> Result<PairingView, SecureBluetoothError> {
    if !valid_device_id(device_id) || all_zero(session_id) {
        Err(SecureBluetoothError::InvalidHello)
    } else if all_zero(contribution) {
        Err(SecureBluetoothError::KeyAgreement)
    } else {
        Ok(
            PairingView {
                hello: HelloView {
                    role,
                    session_id,
                    contribution,
                    device_id,
                    public_key: x25519_public_key(private_key),
                },
                secret: private_key,
            },
        )
    }
}

/// The view of a pairing's construction.
pub open spec fn pairing_result(
    res: Result<BluetoothPairing, SecureBluetoothError>,
) -> Result<PairingView, SecureBluetoothError> {
    match res {
        Ok(pairing) => Ok(pairing@),
        Err(error) => Err(error),
    }
}

impl BluetoothPairing {
    /// A fresh pairing that starts a session. Its session identifier, contribution and key come
    /// from the operating system's randomness.
    pub fn initiator(device_id: String) -> (res: Result<Self, SecureBluetoothError>)
        ensures
            exists|session_id: [u8; 16], contribution: [u8; 16], private_key: [u8; 32]|
                drawn_bytes(session_id) && drawn_bytes(contribution) && drawn_private_key(
                    private_key,
                ) && pairing_result(res) == #[trigger] pairing_outcome(
                    BluetoothRole::Initiator,
                    device_id@,
                    session_id@,
                    contribution@,
                    private_key@,
                ),
            res matches Ok(pairing) ==> valid_pairing(pairing@),
    {
        let session_id: [u8; 16] = random_bytes();
        Self::generate(BluetoothRole::Initiator, device_id, session_id)
    }

    /// A fresh pairing that answers an initiator's hello in its session.
    pub fn responder(device_id: String, initiator: &BluetoothHello) -> (res: Result<
        Self,
        SecureBluetoothError,
    >)
        ensures
            !valid_hello(initiator@) ==> res is Err && res->Err_0
                == SecureBluetoothError::InvalidHello,
            valid_hello(initiator@) && initiator@.role != BluetoothRole::Initiator ==> res is Err
                && res->Err_0 == SecureBluetoothError::InvalidPeer,
            valid_hello(initiator@) && initiator@.role == BluetoothRole::Initiator ==> exists|
                contribution: [u8; 16],
                private_key: [u8; 32],
            |
                drawn_bytes(contribution) && drawn_private_key(private_key) && pairing_result(res)
                    == #[trigger] pairing_outcome(
                    BluetoothRole::Responder,
                    device_id@,
                    initiator@.session_id,
                    contribution@,
                    private_key@,
                ),
            res matches Ok(pairing) ==> valid_pairing(pairing@),
    {
        match initiator.validate() {
            Ok(()) => (),
            Err(error) => return Err(error),
        }
        if initiator.role() != BluetoothRole::Initiator {
            return Err(SecureBluetoothError::InvalidPeer);
        }
        Self::generate(BluetoothRole::Responder, device_id, *initiator.session_id())
    }

    /// A pairing with fresh randomness.
    fn generate(role: BluetoothRole, device_id: String, session_id: [u8; 16]) -> (res: Result<
        Self,
        SecureBluetoothError,
    >)
        ensures
            exists|contribution: [u8; 16], private_key: [u8; 32]|
                drawn_bytes(contribution) && drawn_private_key(private_key) && pairing_result(res)
                    == #[trigger] pairing_outcome(
                    role,
                    device_id@,
                    session_id@,
                    contribution@,
                    private_key@,
                ),
            res matches Ok(pairing) ==> valid_pairing(pairing@),
    {
        let mut private_key = random_private_key();
        let ghost drawn = private_key;
        let secret = SecretKey::take(&mut private_key);
        let contribution: [u8; 16] = random_bytes();
        assert(secret@ == drawn@);
        Self::new(role, device_id, session_id, contribution, secret)
    }

    /// A pairing made of the given randomness.
    pub fn new(
        role: BluetoothRole,
        device_id: String,
        session_id: [u8; 16],
        contribution: [u8; 16],
        private_key: SecretKey,
    ) -> (res: Result<Self, SecureBluetoothError>)
        ensures
            pairing_result(res) == pairing_outcome(
                role,
                device_id@,
                session_id@,
                contribution@,
                private_key@,
            ),
            res matches Ok(pairing) ==> valid_pairing(pairing@),
    {
        if !device_id_is_valid(device_id.as_str()) || is_zero_16(&session_id) {
            return Err(SecureBluetoothError::InvalidHello);
        }
        let public_key = x25519_public(private_key.as_array());
        if is_zero_16(&contribution) {
            return Err(SecureBluetoothError::KeyAgreement);
        }
        Ok(
            BluetoothPairing {
                hello: BluetoothHello::assemble(
                    role,
                    session_id,
                    contribution,
                    device_id,
                    public_key,
                ),
                secret: private_key,
            },
        )
    }

    pub fn hello(&self) -> (res: &BluetoothHello)
        ensures
            res@ == self@.hello,
    {
        &self.hello
    }

    /// Whether a peer's hello belongs to this handshake.
    pub fn check_peer(&self, peer: &BluetoothHello) -> (res: Result<(), SecureBluetoothError>)
        ensures
            res == (if !valid_hello(self@.hello) || !valid_hello(peer@) {
                Err(SecureBluetoothError::InvalidHello)
            } else if !peer_matches(self@.hello, peer@) {
                Err(SecureBluetoothError::InvalidPeer)
            } else {
                Ok(())
            }),
    {
        match self.hello.validate() {
            Ok(()) => (),
            Err(error) => return Err(error),
        }
        match peer.validate() {
            Ok(()) => (),
            Err(error) => return Err(error),
        }
        if peer.role() != self.hello.role().opposite() || !constant_time_eq(
            peer.session_id(),
            self.hello.session_id(),
        ) || same_text(peer.device_id(), self.hello.device_id()) || constant_time_eq(
            peer.public_key(),
            self.hello.public_key(),
        ) {
            return Err(SecureBluetoothError::InvalidPeer);
        }
        Ok(())
    }

    /// Consume the ephemeral secret and derive a pending, unconfirmed session.
    pub fn derive(self, peer: &BluetoothHello) -> (res: Result<
        PendingBluetoothSession,
        SecureBluetoothError,
    >)
        ensures
            derived(self@, peer@, pending_result(res)),
    {
        match self.check_peer(peer) {
            Ok(()) => (),
            Err(error) => return Err(error),
        }
        let mut agreed = x25519_shared(self.secret.as_array(), peer.public_key());
        let shared = SecretKey::take(&mut agreed);
        if is_zero_32(shared.as_array()) {
            return Err(SecureBluetoothError::KeyAgreement);
        }
        let transcript = match self.hello.role() {
            BluetoothRole::Initiator => handshake_transcript(&self.hello, peer),
            BluetoothRole::Responder => handshake_transcript(peer, &self.hello),
        };
        let transcript_hash = sha256(transcript.as_slice());
        let material = match hkdf_sha256(
            &transcript_hash,
            shared.as_array(),
            &PROTOCOL_LABEL,
            KEY_MATERIAL_LEN,
        ) {
            Some(material) => SecretBytes::new(material),
            None => return Err(SecureBluetoothError::KeyDerivation),
        };
        Ok(
            PendingBluetoothSession::from_material(
                &self.hello,
                peer,
                transcript_hash,
                material.as_slice(),
                instant_now(),
            ),
        )
    }
}

/// Derived keys that cannot encrypt or decrypt until the user confirms SAS.
pub struct PendingBluetoothSession {
    local_role: BluetoothRole,
    session_id: [u8; 16],
    local_device_id: String,
    peer_device_id: String,
    transcript_hash: [u8; 32],
    tx_key: SecretKey,
    rx_key: SecretKey,
    tx_prefix: [u8; 4],
    rx_prefix: [u8; 4],
    sas: String,
    created_at: Instant,
}

impl View for PendingBluetoothSession {
    type V = PendingView;

    closed spec fn view(&self) -> PendingView {
        PendingView {
            local_role: self.local_role,
            session_id: self.session_id@,
            local_device_id: self.local_device_id@,
            peer_device_id: self.peer_device_id@,
            transcript_hash: self.transcript_hash@,
            tx_key: self.tx_key@,
            rx_key: self.rx_key@,
            tx_prefix: self.tx_prefix@,
            rx_prefix: self.rx_prefix@,
            sas: self.sas@,
            created_at: self.created_at,
        }
    }
}

impl PendingBluetoothSession {
    /// The session that the handshake's key material gives the device with hello `own`.
    pub fn from_material(
        own: &BluetoothHello,
        peer: &BluetoothHello,
        transcript_hash: [u8; 32],
        material: &[u8],
        created_at: Instant,
    ) -> (res: Self)
        requires
            material@.len() == KEY_MATERIAL_LEN,
        ensures
            res@ == pending_session(own@, peer@, transcript_hash@, material@, created_at),
    {
        let initiator_key = SecretKey::from_slice(material, 0);
        let responder_key = SecretKey::from_slice(material, 32);
        let initiator_prefix: [u8; 4] = copy_array(material, 64);
        let responder_prefix: [u8; 4] = copy_array(material, 68);
        let sas_number: u64 = from_be(slice_subrange(material, 72, 76)) % 1_000_000;
        let sas = format_sas(sas_number);
        let (tx_key, rx_key, tx_prefix, rx_prefix) = match own.role() {
            BluetoothRole::Initiator => (
                initiator_key,
                responder_key,
                initiator_prefix,
                responder_prefix,
            ),
            BluetoothRole::Responder => (
                responder_key,
                initiator_key,
                responder_prefix,
                initiator_prefix,
            ),
        };
        PendingBluetoothSession {
            local_role: own.role(),
            session_id: *own.session_id(),
            local_device_id: own.device_id().to_owned(),
            peer_device_id: peer.device_id().to_owned(),
            transcript_hash,
            tx_key,
            rx_key,
            tx_prefix,
            rx_prefix,
            sas,
            created_at,
        }
    }

    pub fn local_device_id(&self) -> (res: &str)
        ensures
            res@ == self@.local_device_id,
    {
        self.local_device_id.as_str()
    }

    pub fn peer_device_id(&self) -> (res: &str)
        ensures
            res@ == self@.peer_device_id,
    {
        self.peer_device_id.as_str()
    }

    pub fn short_authentication_string(&self) -> (res: &str)
        ensures
            res@ == self@.sas,
    {
        self.sas.as_str()
    }

    /// Confirm the user-observed SAS. Wrong, malformed, or late values fail.
    pub fn confirm(self, observed_sas: &str) -> (res: Result<
        SecureBluetoothSession,
        SecureBluetoothError,
    >)
        ensures
            exists|elapsed: u128|
                clock_measured(self@.created_at, elapsed) && #[trigger] confirmed(
                    self@,
                    elapsed,
                    observed_sas@,
                    session_result(res),
                ),
    {
        let elapsed: u128 = elapsed_nanos(&self.created_at);
        self.confirm_after(elapsed, observed_sas)
    }

    /// Confirm the user-observed SAS, `elapsed` nanoseconds after the derivation.
    pub fn confirm_after(self, elapsed: u128, observed_sas: &str) -> (res: Result<
        SecureBluetoothSession,
        SecureBluetoothError,
    >)
        ensures
            confirmed(self@, elapsed, observed_sas@, session_result(res)),
    {
        if elapsed > BLUETOOTH_CONFIRMATION_TIMEOUT {
            return Err(SecureBluetoothError::ConfirmationExpired);
        }
        let syntax_ok = observed_sas.unicode_len() == 6 && only_digits(observed_sas);
        let same = constant_time_eq(self.sas.as_str().as_bytes(), observed_sas.as_bytes());
        proof {
            if same {
                lemma_utf8_injective(self.sas@, observed_sas@);
            }
        }
        if !syntax_ok || !same {
            return Err(SecureBluetoothError::AuthenticationMismatch);
        }
        Ok(
            SecureBluetoothSession::start(
                self.local_role,
                self.session_id,
                self.transcript_hash,
                self.tx_key,
                self.rx_key,
                self.tx_prefix,
                self.rx_prefix,
                instant_now(),
            ),
        )
    }
}

} // verus!
