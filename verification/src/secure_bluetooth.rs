//! Application-layer security for an untrusted Bluetooth transport.
//!
//! The operating-system Bluetooth link is treated as an attacker-controlled byte stream. A fresh
//! X25519 handshake, transcript-bound HKDF-SHA256 key derivation, and an explicit
//! short-authentication-string (SAS) comparison are required before application payloads can be
//! exchanged. Platform adapters belong outside this module and may only transport the canonical
//! hello and encrypted-frame bytes.
pub mod hello;
pub mod laws;
pub mod pairing;
pub mod session;

pub use hello::{BluetoothHello, BluetoothRole, SecureBluetoothError};
pub use pairing::{BluetoothPairing, PendingBluetoothSession, BLUETOOTH_CONFIRMATION_TIMEOUT};
pub use session::{
    BluetoothMessageType, SecureBluetoothSession, BLUETOOTH_SESSION_LIFETIME,
    MAX_BLUETOOTH_FRAMES_PER_DIRECTION, MAX_BLUETOOTH_PLAINTEXT_LEN,
};
