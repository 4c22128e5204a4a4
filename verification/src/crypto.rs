//! The cryptographic primitives, each one call into the crate that implements it.
//!
//! What a primitive computes has a name (an uninterpreted function of the argument bytes); the
//! contracts of the library speak of these names and of the few facts stated here.
use chacha20poly1305::aead::{Aead, KeyInit, Payload};
use chacha20poly1305::{ChaCha20Poly1305, Nonce, XChaCha20Poly1305, XNonce};
use hkdf::Hkdf;
use rand_core::{OsRng, RngCore};
use sha2::{Digest, Sha256};
use subtle::ConstantTimeEq;
use vstd::prelude::*;
use x25519_dalek::{PublicKey, StaticSecret};
use zeroize::Zeroize;

verus! {

/// The bytes that an AEAD ciphertext has beyond its message.
pub const AEAD_TAG_LEN: usize = 16;

/// The longest output of HKDF-SHA256: 255 blocks of 32 bytes.
pub const HKDF_MAX_OUTPUT: usize = 8160;

/// What SHA-256 makes of a message.
pub uninterp spec fn sha256_digest(message: Seq<u8>) -> Seq<u8>;

/// What HKDF-SHA256 expands a secret to under a salt, an info label and an output length.
pub uninterp spec fn hkdf_sha256_output(
    salt: Seq<u8>,
    secret: Seq<u8>,
    info: Seq<u8>,
    len: nat,
) -> Seq<u8>;

/// The X25519 public key of a private key.
pub uninterp spec fn x25519_public_key(secret: Seq<u8>) -> Seq<u8>;

/// The X25519 secret that a private key shares with the holder of a public key.
pub uninterp spec fn x25519_shared_secret(secret: Seq<u8>, public: Seq<u8>) -> Seq<u8>;

/// The ChaCha20-Poly1305 ciphertext, tag at the end.
pub uninterp spec fn chacha20poly1305_sealed(
    key: Seq<u8>,
    nonce: Seq<u8>,
    aad: Seq<u8>,
    message: Seq<u8>,
) -> Seq<u8>;

/// The message of a ChaCha20-Poly1305 ciphertext, `None` where its tag does not authenticate it.
pub uninterp spec fn chacha20poly1305_opened(
    key: Seq<u8>,
    nonce: Seq<u8>,
    aad: Seq<u8>,
    ciphertext: Seq<u8>,
) -> Option<Seq<u8>>;

/// The XChaCha20-Poly1305 ciphertext, tag at the end.
pub uninterp spec fn xchacha20poly1305_sealed(
    key: Seq<u8>,
    nonce: Seq<u8>,
    aad: Seq<u8>,
    message: Seq<u8>,
) -> Seq<u8>;

/// The message of an XChaCha20-Poly1305 ciphertext, `None` where its tag does not authenticate
/// it.
pub uninterp spec fn xchacha20poly1305_opened(
    key: Seq<u8>,
    nonce: Seq<u8>,
    aad: Seq<u8>,
    ciphertext: Seq<u8>,
) -> Option<Seq<u8>>;

/// `sha2::Sha256::digest`. The result is named; its 32 bytes are its type's.
#[verifier::external_body]
pub(crate) fn sha256(message: &[u8]) -> (res: [u8; 32])
    ensures
        res@ == sha256_digest(message@),
{
    Sha256::digest(message).into()
}

/// `hkdf::Hkdf::<Sha256>::new` and `expand`. The result is named. The crate refuses only lengths
/// over 255 blocks, which are not admitted here; otherwise it fills the whole output.
#[verifier::external_body]
pub(crate) fn hkdf_sha256(salt: &[u8], secret: &[u8], info: &[u8], len: usize) -> (res: Option<
    Vec<u8>,
>)
    requires
        len <= HKDF_MAX_OUTPUT,
    ensures
        res is Some,
        res matches Some(out) ==> out@ == hkdf_sha256_output(salt@, secret@, info@, len as nat)
            && out@.len() == len,
{
    let mut out = vec![0u8; len];
    match Hkdf::<Sha256>::new(Some(salt), secret).expand(info, &mut out) {
        Ok(()) => Some(out),
        Err(_) => None,
    }
}

/// `x25519_dalek::PublicKey::from` a `StaticSecret`. The result is named.
#[verifier::external_body]
pub(crate) fn x25519_public(secret: &[u8; 32]) -> (res: [u8; 32])
    ensures
        res@ == x25519_public_key(secret@),
{
    PublicKey::from(&StaticSecret::from(*secret)).to_bytes()
}

/// `x25519_dalek::StaticSecret::diffie_hellman`. The result is named; where the public key is
/// that of some private key, its holder computes the same secret from this side's public key.
#[verifier::external_body]
pub(crate) fn x25519_shared(secret: &[u8; 32], public: &[u8; 32]) -> (res: [u8; 32])
    ensures
        res@ == x25519_shared_secret(secret@, public@),
        forall|other: Seq<u8>|
            other.len() == 32 && public@ == #[trigger] x25519_public_key(other) ==> res@
                == x25519_shared_secret(other, x25519_public_key(secret@)),
{
    *StaticSecret::from(*secret).diffie_hellman(&PublicKey::from(*public)).as_bytes()
}

/// `ChaCha20Poly1305::encrypt`. The ciphertext is named, is 16 bytes longer than the message,
/// and opens to the message again. The crate refuses only messages over the cipher's block
/// counter, far above the length admitted here.
#[verifier::external_body]
pub(crate) fn chacha20poly1305_seal(
    key: &[u8; 32],
    nonce: &[u8; 12],
    aad: &[u8],
    message: &[u8],
) -> (res: Option<Vec<u8>>)
    requires
        message@.len() <= u32::MAX,
    ensures
        res is Some,
        res matches Some(sealed) ==> {
            &&& sealed@ == chacha20poly1305_sealed(key@, nonce@, aad@, message@)
            &&& sealed@.len() == message@.len() + AEAD_TAG_LEN
            &&& chacha20poly1305_opened(key@, nonce@, aad@, sealed@) == Some(message@)
        },
{
    let cipher = ChaCha20Poly1305::new(key.into());
    cipher.encrypt(Nonce::from_slice(nonce), Payload { msg: message, aad }).ok()
}

/// `ChaCha20Poly1305::decrypt`. The result is named; a message is 16 bytes shorter than its
/// ciphertext.
#[verifier::external_body]
pub(crate) fn chacha20poly1305_open(
    key: &[u8; 32],
    nonce: &[u8; 12],
    aad: &[u8],
    ciphertext: &[u8],
) -> (res: Option<Vec<u8>>)
    requires
        ciphertext@.len() <= u32::MAX,
    ensures
        match res {
            Some(message) => {
                &&& chacha20poly1305_opened(key@, nonce@, aad@, ciphertext@) == Some(message@)
                &&& message@.len() + AEAD_TAG_LEN == ciphertext@.len()
            },
            None => chacha20poly1305_opened(key@, nonce@, aad@, ciphertext@) is None,
        },
{
    let cipher = ChaCha20Poly1305::new(key.into());
    cipher.decrypt(Nonce::from_slice(nonce), Payload { msg: ciphertext, aad }).ok()
}

/// `XChaCha20Poly1305::encrypt`. The ciphertext is named, is 16 bytes longer than the message,
/// and opens to the message again. The crate refuses only messages over the cipher's block
/// counter, far above the length admitted here.
#[verifier::external_body]
pub(crate) fn xchacha20poly1305_seal(
    key: &[u8; 32],
    nonce: &[u8; 24],
    aad: &[u8],
    message: &[u8],
) -> (res: Option<Vec<u8>>)
    requires
        message@.len() <= u32::MAX,
    ensures
        res is Some,
        res matches Some(sealed) ==> {
            &&& sealed@ == xchacha20poly1305_sealed(key@, nonce@, aad@, message@)
            &&& sealed@.len() == message@.len() + AEAD_TAG_LEN
            &&& xchacha20poly1305_opened(key@, nonce@, aad@, sealed@) == Some(message@)
        },
{
    let cipher = XChaCha20Poly1305::new(key.into());
    cipher.encrypt(XNonce::from_slice(nonce), Payload { msg: message, aad }).ok()
}

/// `XChaCha20Poly1305::decrypt`. The result is named; a message is 16 bytes shorter than its
/// ciphertext.
#[verifier::external_body]
pub(crate) fn xchacha20poly1305_open(
    key: &[u8; 32],
    nonce: &[u8; 24],
    aad: &[u8],
    ciphertext: &[u8],
) -> (res: Option<Vec<u8>>)
    requires
        ciphertext@.len() <= u32::MAX,
    ensures
        match res {
            Some(message) => {
                &&& xchacha20poly1305_opened(key@, nonce@, aad@, ciphertext@) == Some(message@)
                &&& message@.len() + AEAD_TAG_LEN == ciphertext@.len()
            },
            None => xchacha20poly1305_opened(key@, nonce@, aad@, ciphertext@) is None,
        },
{
    let cipher = XChaCha20Poly1305::new(key.into());
    cipher.decrypt(XNonce::from_slice(nonce), Payload { msg: ciphertext, aad }).ok()
}

/// `subtle::ConstantTimeEq::ct_eq` on slices: true exactly for equal bytes. That the comparison
/// takes constant time is not stated.
#[verifier::external_body]
pub(crate) fn constant_time_eq(a: &[u8], b: &[u8]) -> (res: bool)
    ensures
        res == (a@ == b@),
{
    a.ct_eq(b).into()
}

/// The operating system's randomness gave these bytes.
pub open(crate) spec fn drawn_bytes<const N: usize>(bytes: [u8; N]) -> bool {
    call_ensures(random_bytes::<N>, (), bytes)
}

/// The operating system's randomness gave this private key.
pub open(crate) spec fn drawn_private_key(key: [u8; 32]) -> bool {
    call_ensures(random_private_key, (), key)
}

/// `rand_core::OsRng::fill_bytes`: bytes of the operating system's randomness. Nothing is claimed
/// of them.
#[verifier::external_body]
pub(crate) fn random_bytes<const N: usize>() -> [u8; N] {
    let mut bytes = [0u8; N];
    OsRng.fill_bytes(&mut bytes);
    bytes
}

/// `x25519_dalek::StaticSecret::random_from_rng` with `rand_core::OsRng`: a fresh private key.
/// Nothing is claimed of it.
#[verifier::external_body]
pub(crate) fn random_private_key() -> [u8; 32] {
    StaticSecret::random_from_rng(OsRng).to_bytes()
}

/// `zeroize::Zeroize::zeroize` on a key: every byte becomes zero.
#[verifier::external_body]
pub(crate) fn wipe_key(bytes: &mut [u8; 32])
    ensures
        final(bytes)@ == Seq::new(32, |i: int| 0u8),
    opens_invariants none
    no_unwind
{
    bytes.zeroize();
}

/// `zeroize::Zeroize::zeroize` on a vector: its bytes are overwritten and it becomes empty.
#[verifier::external_body]
pub(crate) fn wipe_bytes(bytes: &mut Vec<u8>)
    ensures
        final(bytes)@.len() == 0,
    opens_invariants none
    no_unwind
{
    bytes.zeroize();
}

/// `zeroize::Zeroize::zeroize` on a string: its bytes are overwritten and it becomes empty.
#[verifier::external_body]
pub(crate) fn wipe_text(text: &mut String)
    ensures
        final(text)@.len() == 0,
    opens_invariants none
    no_unwind
{
    text.zeroize();
}

/// Drawn values are those that the operating system's randomness gave.
pub(crate) proof fn draws_come_from_the_system<const N: usize>(bytes: [u8; N], key: [u8; 32])
    ensures
        drawn_bytes(bytes) <==> call_ensures(random_bytes::<N>, (), bytes),
        drawn_private_key(key) <==> call_ensures(random_private_key, (), key),
{
}

} // verus!
