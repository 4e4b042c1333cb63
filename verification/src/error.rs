//! The errors an activation attempt can end in.

use vstd::prelude::*;

verus! {

/// Everything that can go wrong while probing for, or switching a socket to,
/// kernel TLS.  Variants that stem from a failed kernel operation carry the
/// operating system's error code.
#[derive(Clone, Copy, Debug, PartialEq, Eq, Structural)]
pub enum Error {
    /// A probing socket could not be established; fatal to the whole probe.
    ConnectionError(i32),
    /// The kernel refused to enable the TLS upper-level protocol on the
    /// socket; the caller may fall back to software TLS.
    UlpError(i32),
    /// The translator met a cipher/version pairing or key-material length
    /// that the kernel-facing format does not recognize.
    KtlsCompatibility,
    /// The session refused to export its traffic secrets (for example,
    /// because they were exported already, or export was never enabled).
    ExportSecrets,
    /// The kernel rejected one direction's crypto parameters, most likely
    /// an unsupported cipher/version on this kernel.
    TlsCryptoInfoError(i32),
    /// Activation was attempted before (or without) a completed handshake;
    /// a programmer error, never caused by network conditions.
    NoNegotiatedCipherSuite,
}

} // verus!
