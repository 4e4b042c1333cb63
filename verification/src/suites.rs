//! The cipher-suite model: protocol version, bulk cipher, and direction.
//!
//! A negotiated cipher suite is reduced to the two parts the kernel cares
//! about: the protocol version and the bulk-cipher family.  Key exchange and
//! authentication play no role once the handshake is done.

use vstd::prelude::*;

verus! {

/// A TLS protocol version the kernel's record layer can be configured for.
#[derive(Clone, Copy, Debug, PartialEq, Eq, Structural)]
pub enum TlsVersion {
    Tls12,
    Tls13,
}

/// A bulk cipher (record-payload cipher) the kernel's record layer knows.
#[derive(Clone, Copy, Debug, PartialEq, Eq, Structural)]
pub enum BulkCipher {
    Aes128Gcm,
    Aes256Gcm,
    Chacha20Poly1305,
}

/// What the kernel needs to know of a negotiated cipher suite: its protocol
/// version and its bulk-cipher family.
#[derive(Clone, Copy, Debug, PartialEq, Eq, Structural)]
pub struct CipherSuite {
    pub version: TlsVersion,
    pub bulk: BulkCipher,
}

/// Which half of the connection a crypto configuration applies to.
#[derive(Clone, Copy, Debug, PartialEq, Eq, Structural)]
pub enum Direction {
    /// Outgoing records: the kernel encrypts.
    Tx,
    /// Incoming records: the kernel decrypts.
    Rx,
}

impl BulkCipher {
    /// The length in bytes of this family's key.
    pub open spec fn spec_key_len(self) -> nat {
        match self {
            BulkCipher::Aes128Gcm => 16,
            BulkCipher::Aes256Gcm => 32,
            BulkCipher::Chacha20Poly1305 => 32,
        }
    }

    /// The length in bytes of the implicit-nonce part ("salt") the kernel
    /// expects for this family; ChaCha20-Poly1305 carries the whole nonce in
    /// its IV and has no separate salt.
    pub open spec fn spec_salt_len(self) -> nat {
        match self {
            BulkCipher::Aes128Gcm => 4,
            BulkCipher::Aes256Gcm => 4,
            BulkCipher::Chacha20Poly1305 => 0,
        }
    }

    /// The length in bytes of the per-record IV part the kernel expects.
    pub open spec fn spec_iv_len(self) -> nat {
        match self {
            BulkCipher::Aes128Gcm => 8,
            BulkCipher::Aes256Gcm => 8,
            BulkCipher::Chacha20Poly1305 => 12,
        }
    }

    /// The length in bytes of this family's key, as an executable value.
    pub fn key_len(&self) -> (n: usize)
        ensures
            n == self.spec_key_len(),
    {
        match self {
            BulkCipher::Aes128Gcm => 16,
            BulkCipher::Aes256Gcm => 32,
            BulkCipher::Chacha20Poly1305 => 32,
        }
    }

    /// The length in bytes of this family's salt, as an executable value.
    pub fn salt_len(&self) -> (n: usize)
        ensures
            n == self.spec_salt_len(),
    {
        match self {
            BulkCipher::Aes128Gcm => 4,
            BulkCipher::Aes256Gcm => 4,
            BulkCipher::Chacha20Poly1305 => 0,
        }
    }

    /// The length in bytes of this family's per-record IV, as an executable
    /// value.
    pub fn iv_len(&self) -> (n: usize)
        ensures
            n == self.spec_iv_len(),
    {
        match self {
            BulkCipher::Aes128Gcm => 8,
            BulkCipher::Aes256Gcm => 8,
            BulkCipher::Chacha20Poly1305 => 12,
        }
    }
}

} // verus!
