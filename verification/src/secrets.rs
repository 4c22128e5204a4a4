//! Values that are overwritten when they are dropped.
use crate::crypto::{wipe_bytes, wipe_key, wipe_text};
use crate::encoding::copy_array;
use vstd::prelude::*;

verus! {

/// A 32-byte key.
pub struct SecretKey {
    bytes: [u8; 32],
}

impl View for SecretKey {
    type V = Seq<u8>;

    closed spec fn view(&self) -> Seq<u8> {
        self.bytes@
    }
}

impl SecretKey {
    pub fn new(bytes: [u8; 32]) -> (res: Self)
        ensures
            res@ == bytes@,
    {
        SecretKey { bytes }
    }

    /// The key, with the bytes that it was taken from overwritten.
    pub fn take(bytes: &mut [u8; 32]) -> (res: Self)
        ensures
            res@ == old(bytes)@,
            final(bytes)@ == Seq::new(32, |i: int| 0u8),
    {
        let res = SecretKey { bytes: *bytes };
        wipe_key(bytes);
        res
    }

    /// The key that the 32 bytes from `start` on are.
    pub fn from_slice(bytes: &[u8], start: usize) -> (res: Self)
        requires
            start + 32 <= bytes@.len(),
        ensures
            res@ == bytes@.subrange(start as int, start + 32),
    {
        SecretKey { bytes: copy_array(bytes, start) }
    }

    pub fn as_array(&self) -> (res: &[u8; 32])
        ensures
            res@ == self@,
    {
        &self.bytes
    }
}

impl Drop for SecretKey {
    /// Every byte becomes zero.
    fn drop(&mut self)
        ensures
            final(self)@ == Seq::new(32, |i: int| 0u8),
        opens_invariants none
        no_unwind
    {
        wipe_key(&mut self.bytes);
    }
}

/// A buffer of bytes.
#[derive(Debug, PartialEq, Eq)]
pub struct SecretBytes {
    bytes: Vec<u8>,
}

impl View for SecretBytes {
    type V = Seq<u8>;

    closed spec fn view(&self) -> Seq<u8> {
        self.bytes@
    }
}

impl SecretBytes {
    pub fn new(bytes: Vec<u8>) -> (res: Self)
        ensures
            res@ == bytes@,
    {
        SecretBytes { bytes }
    }

    pub fn as_slice(&self) -> (res: &[u8])
        ensures
            res@ == self@,
    {
        self.bytes.as_slice()
    }
}

impl Drop for SecretBytes {
    /// What was held is overwritten, and nothing is left.
    fn drop(&mut self)
        ensures
            final(self)@.len() == 0,
        opens_invariants none
        no_unwind
    {
        wipe_bytes(&mut self.bytes);
    }
}

/// A text.
pub struct SecretText {
    text: String,
}

impl View for SecretText {
    type V = Seq<char>;

    closed spec fn view(&self) -> Seq<char> {
        self.text@
    }
}

impl SecretText {
    pub fn new(text: String) -> (res: Self)
        ensures
            res@ == text@,
    {
        SecretText { text }
    }

    pub fn as_str(&self) -> (res: &str)
        ensures
            res@ == self@,
    {
        self.text.as_str()
    }
}

impl Drop for SecretText {
    /// What was held is overwritten, and nothing is left.
    fn drop(&mut self)
        ensures
            final(self)@.len() == 0,
        opens_invariants none
        no_unwind
    {
        wipe_text(&mut self.text);
    }
}

} // verus!
