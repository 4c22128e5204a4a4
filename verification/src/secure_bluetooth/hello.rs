//! The public handshake message and its canonical encoding.
use crate::crypto::constant_time_eq;
use crate::encoding::{all_zero, copy_array};
use crate::std_text::text_from_utf8;
use crate::text::{all_tokens, lemma_utf8_injective, only_tokens};
use vstd::prelude::*;
use vstd::slice::*;
use vstd::string::*;
use vstd::utf8::*;

verus! {

/// The ASCII letters `FTBH`.
pub const HELLO_MAGIC: [u8; 4] = [0x46, 0x54, 0x42, 0x48];

pub const VERSION: u8 = 1;

/// The length of a hello without its device identifier.
pub const HELLO_FIXED_LEN: usize = 71;

pub const MIN_DEVICE_ID_LEN: usize = 8;

pub const MAX_DEVICE_ID_LEN: usize = 64;

#[derive(Debug, Clone, Copy, PartialEq, Eq, Structural)]
pub enum BluetoothRole {
    Initiator,
    Responder,
}

#[derive(Debug, Clone, Copy, PartialEq, Eq, Structural)]
pub enum SecureBluetoothError {
    InvalidHello,
    InvalidPeer,
    KeyAgreement,
    KeyDerivation,
    AuthenticationMismatch,
    ConfirmationExpired,
    SessionExpired,
    FrameLimit,
    MessageTooLarge,
    InvalidFrame,
    ReplayOrOutOfOrder,
    Encrypt,
    Decrypt,
}

/// The sentence shown for an error.
pub open spec fn bluetooth_error_text(error: SecureBluetoothError) -> Seq<char> {
    match error {
        SecureBluetoothError::InvalidHello => "invalid Bluetooth handshake message"@,
        SecureBluetoothError::InvalidPeer => "Bluetooth peer does not match this handshake"@,
        SecureBluetoothError::KeyAgreement => "Bluetooth key agreement failed"@,
        SecureBluetoothError::KeyDerivation => "Bluetooth session key derivation failed"@,
        SecureBluetoothError::AuthenticationMismatch =>
            "Bluetooth authentication numbers did not match"@,
        SecureBluetoothError::ConfirmationExpired => "Bluetooth confirmation window expired"@,
        SecureBluetoothError::SessionExpired => "Bluetooth session expired"@,
        SecureBluetoothError::FrameLimit => "Bluetooth session frame limit reached"@,
        SecureBluetoothError::MessageTooLarge => "Bluetooth message is too large"@,
        SecureBluetoothError::InvalidFrame => "invalid encrypted Bluetooth frame"@,
        SecureBluetoothError::ReplayOrOutOfOrder => "replayed or out-of-order Bluetooth frame"@,
        SecureBluetoothError::Encrypt => "Bluetooth frame encryption failed"@,
        SecureBluetoothError::Decrypt => "Bluetooth frame authentication failed"@,
    }
}

impl SecureBluetoothError {
    pub fn message(&self) -> (res: &'static str)
        ensures
            res@ == bluetooth_error_text(*self),
    {
        match self {
            SecureBluetoothError::InvalidHello => "invalid Bluetooth handshake message",
            SecureBluetoothError::InvalidPeer => "Bluetooth peer does not match this handshake",
            SecureBluetoothError::KeyAgreement => "Bluetooth key agreement failed",
            SecureBluetoothError::KeyDerivation => "Bluetooth session key derivation failed",
            SecureBluetoothError::AuthenticationMismatch =>
                "Bluetooth authentication numbers did not match",
            SecureBluetoothError::ConfirmationExpired => "Bluetooth confirmation window expired",
            SecureBluetoothError::SessionExpired => "Bluetooth session expired",
            SecureBluetoothError::FrameLimit => "Bluetooth session frame limit reached",
            SecureBluetoothError::MessageTooLarge => "Bluetooth message is too large",
            SecureBluetoothError::InvalidFrame => "invalid encrypted Bluetooth frame",
            SecureBluetoothError::ReplayOrOutOfOrder => "replayed or out-of-order Bluetooth frame",
            SecureBluetoothError::Encrypt => "Bluetooth frame encryption failed",
            SecureBluetoothError::Decrypt => "Bluetooth frame authentication failed",
        }
    }
}

/// The byte that stands for a role on the wire.
pub open spec fn role_byte(role: BluetoothRole) -> u8 {
    match role {
        BluetoothRole::Initiator => 0,
        BluetoothRole::Responder => 1,
    }
}

pub open spec fn opposite_role(role: BluetoothRole) -> BluetoothRole {
    match role {
        BluetoothRole::Initiator => BluetoothRole::Responder,
        BluetoothRole::Responder => BluetoothRole::Initiator,
    }
}

impl BluetoothRole {
    pub fn to_byte(self) -> (res: u8)
        ensures
            res == role_byte(self),
    {
        match self {
            BluetoothRole::Initiator => 0,
            BluetoothRole::Responder => 1,
        }
    }

    pub fn from_byte(value: u8) -> (res: Result<Self, SecureBluetoothError>)
        ensures
            match res {
                Ok(role) => role_byte(role) == value,
                Err(error) => error == SecureBluetoothError::InvalidHello && value > 1,
            },
    {
        match value {
            0 => Ok(BluetoothRole::Initiator),
            1 => Ok(BluetoothRole::Responder),
            _ => Err(SecureBluetoothError::InvalidHello),
        }
    }

    pub fn opposite(self) -> (res: Self)
        ensures
            res == opposite_role(self),
    {
        match self {
            BluetoothRole::Initiator => BluetoothRole::Responder,
            BluetoothRole::Responder => BluetoothRole::Initiator,
        }
    }
}

/// Public, non-secret handshake contribution suitable for transport over BLE.
#[derive(Debug, PartialEq, Eq)]
pub struct BluetoothHello {
    role: BluetoothRole,
    session_id: [u8; 16],
    contribution: [u8; 16],
    device_id: String,
    public_key: [u8; 32],
}

/// What a hello says.
#[verifier::ext_equal]
pub struct HelloView {
    pub role: BluetoothRole,
    pub session_id: Seq<u8>,
    pub contribution: Seq<u8>,
    pub device_id: Seq<char>,
    pub public_key: Seq<u8>,
}

/// A device identifier: 8 to 64 ASCII letters, digits, `-` and `_`.
pub open spec fn valid_device_id(id: Seq<char>) -> bool {
    MIN_DEVICE_ID_LEN <= id.len() <= MAX_DEVICE_ID_LEN && all_tokens(id)
}

/// A hello that a peer may send: fields of their lengths, none of them zero.
pub open spec fn valid_hello(h: HelloView) -> bool {
    &&& h.session_id.len() == 16
    &&& h.contribution.len() == 16
    &&& h.public_key.len() == 32
    &&& valid_device_id(h.device_id)
    &&& !all_zero(h.session_id)
    &&& !all_zero(h.contribution)
    &&& !all_zero(h.public_key)
}

/// The canonical encoding of a hello.
pub open spec fn hello_bytes(h: HelloView) -> Seq<u8> {
    let id = encode_utf8(h.device_id);
    HELLO_MAGIC@ + seq![VERSION, role_byte(h.role)] + h.session_id + h.contribution
        + seq![id.len() as u8] + id + h.public_key
}

/// An ASCII text has one byte per character.
pub proof fn lemma_device_id_bytes(id: Seq<char>)
    requires
        valid_device_id(id),
    ensures
        encode_utf8(id).len() == id.len(),
{
    assert(is_ascii_chars(id));
    is_ascii_chars_encode_utf8(id);
}

/// Where each field of a valid hello lies in its encoding.
pub proof fn lemma_hello_layout(h: HelloView)
    requires
        valid_hello(h),
    ensures
        ({
            let bytes = hello_bytes(h);
            let n = h.device_id.len() as int;
            &&& bytes.len() == HELLO_FIXED_LEN + n
            &&& bytes.subrange(0, 4) == HELLO_MAGIC@
            &&& bytes[4] == VERSION
            &&& bytes[5] == role_byte(h.role)
            &&& bytes.subrange(6, 22) == h.session_id
            &&& bytes.subrange(22, 38) == h.contribution
            &&& bytes[38] == n
            &&& bytes.subrange(39, 39 + n) == encode_utf8(h.device_id)
            &&& bytes.subrange(39 + n, 71 + n) == h.public_key
        }),
{
    lemma_device_id_bytes(h.device_id);
    let bytes = hello_bytes(h);
    let n = h.device_id.len() as int;
    assert(bytes.subrange(0, 4) =~= HELLO_MAGIC@);
    assert(bytes.subrange(6, 22) =~= h.session_id);
    assert(bytes.subrange(22, 38) =~= h.contribution);
    assert(bytes.subrange(39, 39 + n) =~= encode_utf8(h.device_id));
    assert(bytes.subrange(39 + n, 71 + n) =~= h.public_key);
}

/// Two valid hellos with the same encoding are the same: what a peer decodes is what was
/// encoded.
pub proof fn hello_encoding_is_injective(a: HelloView, b: HelloView)
    requires
        valid_hello(a),
        valid_hello(b),
        hello_bytes(a) == hello_bytes(b),
    ensures
        a == b,
{
    lemma_hello_layout(a);
    lemma_hello_layout(b);
    lemma_utf8_injective(a.device_id, b.device_id);
}

/// Appending anything to the encoding of a valid hello gives no encoding of a valid hello.
pub proof fn hello_encoding_admits_no_trailing_bytes(a: HelloView, b: HelloView, trailing: Seq<u8>)
    requires
        valid_hello(a),
        valid_hello(b),
        trailing.len() > 0,
    ensures
        hello_bytes(a) + trailing != hello_bytes(b),
{
    lemma_hello_layout(a);
    lemma_hello_layout(b);
    if hello_bytes(a) + trailing == hello_bytes(b) {
        assert((hello_bytes(a) + trailing)[38] == hello_bytes(a)[38]);
    }
}

/// Whether a text can identify a device.
pub fn device_id_is_valid(value: &str) -> (res: bool)
    ensures
        res == valid_device_id(value@),
{
    let length: usize = value.unicode_len();
    MIN_DEVICE_ID_LEN <= length && length <= MAX_DEVICE_ID_LEN && only_tokens(value)
}

/// Whether all sixteen bytes are zero.
pub fn is_zero_16(bytes: &[u8; 16]) -> (res: bool)
    ensures
        res == all_zero(bytes@),
{
    let zeros = [0u8; 16];
    proof {
        assert(all_zero(zeros@));
        if all_zero(bytes@) {
            assert(bytes@ =~= zeros@);
        }
    }
    constant_time_eq(bytes, &zeros)
}

/// Whether all thirty-two bytes are zero.
pub fn is_zero_32(bytes: &[u8; 32]) -> (res: bool)
    ensures
        res == all_zero(bytes@),
{
    let zeros = [0u8; 32];
    proof {
        assert(all_zero(zeros@));
        if all_zero(bytes@) {
            assert(bytes@ =~= zeros@);
        }
    }
    constant_time_eq(bytes, &zeros)
}

impl View for BluetoothHello {
    type V = HelloView;

    closed spec fn view(&self) -> HelloView {
        HelloView {
            role: self.role,
            session_id: self.session_id@,
            contribution: self.contribution@,
            device_id: self.device_id@,
            public_key: self.public_key@,
        }
    }
}

impl Clone for BluetoothHello {
    fn clone(&self) -> (res: Self)
        ensures
            res@ == self@,
    {
        BluetoothHello {
            role: self.role,
            session_id: self.session_id,
            contribution: self.contribution,
            device_id: self.device_id.clone(),
            public_key: self.public_key,
        }
    }
}

impl BluetoothHello {
    pub(crate) fn assemble(
        role: BluetoothRole,
        session_id: [u8; 16],
        contribution: [u8; 16],
        device_id: String,
        public_key: [u8; 32],
    ) -> (res: Self)
        ensures
            res@ == (HelloView {
                role,
                session_id: session_id@,
                contribution: contribution@,
                device_id: device_id@,
                public_key: public_key@,
            }),
    {
        BluetoothHello { role, session_id, contribution, device_id, public_key }
    }

    pub fn role(&self) -> (res: BluetoothRole)
        ensures
            res == self@.role,
    {
        self.role
    }

    pub fn session_id(&self) -> (res: &[u8; 16])
        ensures
            res@ == self@.session_id,
    {
        &self.session_id
    }

    pub fn device_id(&self) -> (res: &str)
        ensures
            res@ == self@.device_id,
    {
        self.device_id.as_str()
    }

    pub fn public_key(&self) -> (res: &[u8; 32])
        ensures
            res@ == self@.public_key,
    {
        &self.public_key
    }

    /// Canonical binary encoding for transport and transcript hashing.
    pub fn encode(&self) -> (res: Vec<u8>)
        ensures
            res@ == hello_bytes(self@),
    {
        let id = self.device_id.as_str().as_bytes();
        let mut out: Vec<u8> = Vec::new();
        out.extend_from_slice(&HELLO_MAGIC);
        out.push(VERSION);
        out.push(self.role.to_byte());
        out.extend_from_slice(&self.session_id);
        out.extend_from_slice(&self.contribution);
        out.push(id.len() as u8);
        out.extend_from_slice(id);
        out.extend_from_slice(&self.public_key);
        assert(out@ =~= hello_bytes(self@));
        out
    }

    /// Parse an untrusted peer hello with exact length and character bounds: the bytes are
    /// accepted exactly where they are the encoding of a valid hello.
    pub fn decode(bytes: &[u8]) -> (res: Result<Self, SecureBluetoothError>)
        ensures
            match res {
                Ok(hello) => valid_hello(hello@) && hello_bytes(hello@) == bytes@,
                Err(error) => error == SecureBluetoothError::InvalidHello && forall|h: HelloView|
                    valid_hello(h) ==> #[trigger] hello_bytes(h) != bytes@,
            },
    {
        proof {
            assert forall|h: HelloView| valid_hello(h) && #[trigger] hello_bytes(h) == bytes@ implies {
                let n = h.device_id.len() as int;
                &&& bytes@.len() == HELLO_FIXED_LEN + n
                &&& bytes@.subrange(0, 4) == HELLO_MAGIC@
                &&& bytes@[4] == VERSION
                &&& bytes@[5] == role_byte(h.role)
                &&& bytes@.subrange(6, 22) == h.session_id
                &&& bytes@.subrange(22, 38) == h.contribution
                &&& bytes@[38] == n
                &&& MIN_DEVICE_ID_LEN <= n <= MAX_DEVICE_ID_LEN
                &&& bytes@.subrange(39, 39 + n) == encode_utf8(h.device_id)
                &&& bytes@.subrange(39 + n, 71 + n) == h.public_key
                &&& valid_utf8(encode_utf8(h.device_id))
            } by {
                lemma_hello_layout(h);
                encode_utf8_valid_utf8(h.device_id);
            }
        }
        if bytes.len() < HELLO_FIXED_LEN {
            return Err(SecureBluetoothError::InvalidHello);
        }
        let magic: [u8; 4] = copy_array(bytes, 0);
        if magic[0] != HELLO_MAGIC[0] || magic[1] != HELLO_MAGIC[1] || magic[2] != HELLO_MAGIC[2]
            || magic[3] != HELLO_MAGIC[3] || bytes[4] != VERSION {
            return Err(SecureBluetoothError::InvalidHello);
        }
        assert(magic@ =~= HELLO_MAGIC@);
        let role = match BluetoothRole::from_byte(bytes[5]) {
            Ok(role) => role,
            Err(error) => return Err(error),
        };
        let session_id: [u8; 16] = copy_array(bytes, 6);
        let contribution: [u8; 16] = copy_array(bytes, 22);
        let id_len: usize = bytes[38] as usize;
        if id_len < MIN_DEVICE_ID_LEN || id_len > MAX_DEVICE_ID_LEN || bytes.len()
            != HELLO_FIXED_LEN + id_len {
            return Err(SecureBluetoothError::InvalidHello);
        }
        let id_end: usize = 39 + id_len;
        let device_id = match text_from_utf8(slice_subrange(bytes, 39, id_end)) {
            Some(text) => text,
            None => return Err(SecureBluetoothError::InvalidHello),
        };
        let public_key: [u8; 32] = copy_array(bytes, id_end);
        let hello = BluetoothHello { role, session_id, contribution, device_id, public_key };
        proof {
            assert(encode_utf8(device_id@).len() == id_len);
            assert(hello_bytes(hello@) =~= bytes@);
            assert forall|h: HelloView| valid_hello(h) && #[trigger] hello_bytes(h) == bytes@ implies h
                == hello@ by {
                lemma_utf8_injective(h.device_id, device_id@);
            }
        }
        match hello.validate() {
            Ok(()) => Ok(hello),
            Err(error) => Err(error),
        }
    }

    pub fn validate(&self) -> (res: Result<(), SecureBluetoothError>)
        ensures
            res == (if valid_hello(self@) {
                Ok(())
            } else {
                Err(SecureBluetoothError::InvalidHello)
            }),
    {
        if !device_id_is_valid(self.device_id.as_str()) || is_zero_16(&self.session_id)
            || is_zero_16(&self.contribution) || is_zero_32(&self.public_key) {
            return Err(SecureBluetoothError::InvalidHello);
        }
        Ok(())
    }
}

} // verus!
