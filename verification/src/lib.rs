//! Kernel TLS (kTLS) activation for an already-established TLS session.
//!
//! After a software TLS handshake completes, the kernel can take over
//! record encryption and decryption on the underlying socket.  This crate
//! holds the verified core of that activation: the cipher-suite model, the
//! kernel compatibility table, the translation of negotiated secrets into
//! the kernel's crypto parameters, the ordering of the configuration steps,
//! and the hand-off of already-decrypted plaintext.

mod compat;
mod configurator;
mod drain;
mod error;
mod info;
mod prober;
mod secrets;
mod session;
mod stream;
mod suites;

pub use compat::CompatibleCiphers;
pub use compat::CompatibleCiphersForVersion;
pub use compat::tested_suites;
pub use configurator::ConfigAction;
pub use configurator::ConfigPhase;
pub use configurator::Configurator;
pub use drain::DrainPoll;
pub use drain::drain_outcome;
pub use error::Error;
pub use info::CryptoInfo;
pub use info::CryptoInfoV;
pub use info::be_bytes;
pub use info::translate;
pub use prober::Endpoint;
pub use prober::PendingConns;
pub use prober::probe_payload;
pub use secrets::TrafficSecret;
pub use secrets::TrafficSecretV;
pub use secrets::zero_secret;
pub use session::SessionSecrets;
pub use session::plan_configuration;
pub use session::prepare_session;
pub use stream::LeftoverBuffer;
pub use stream::ReadStep;
pub use suites::BulkCipher;
pub use suites::CipherSuite;
pub use suites::Direction;
pub use suites::TlsVersion;
