//! The session-facing steps of the activation pipeline: reading the
//! negotiated cipher suite and exporting the traffic secrets from a
//! completed rustls session, then translating both directions and readying
//! the configuration machine.
//!
//! The rustls calls themselves are trusted: each stands behind a declared
//! type or a small wrapper whose contract states what the rustls sources
//! show.  Everything around them — the error decisions, the translation,
//! the ordering — is verified.

use vstd::prelude::*;

use crate::configurator::ConfigPhase;
use crate::configurator::Configurator;
use crate::error::Error;
use crate::info::CryptoInfoV;
use crate::info::spec_translate;
use crate::info::translate;
use crate::secrets::TrafficSecret;
use crate::suites::BulkCipher;
use crate::suites::CipherSuite;
use crate::suites::TlsVersion;

verus! {

#[verifier::external_type_specification]
#[verifier::external_body]
pub struct ExConnection(rustls::Connection);

#[verifier::external_type_specification]
#[verifier::external_body]
pub struct ExExtractedSecrets(rustls::ExtractedSecrets);

#[verifier::external_type_specification]
#[verifier::external_body]
pub struct ExConnectionTrafficSecrets(rustls::ConnectionTrafficSecrets);

/// Relies on rustls::Connection::extract_secrets: consumes the session and
/// returns both directions' secrets, or an error when secret extraction was
/// not enabled for the session or the secrets are gone already.
#[verifier::external_body]
fn extract_secrets(conn: rustls::Connection) -> (r: Option<rustls::ExtractedSecrets>) {
    match conn.extract_secrets() {
        Ok(s) => Some(s),
        Err(_) => None,
    }
}

/// Relies on rustls::CommonState::negotiated_cipher_suite, which returns
/// `None` until a cipher suite is agreed; and on rustls's supported-suite
/// tables, in which every suite is TLS 1.2 or TLS 1.3 and names its bulk
/// algorithm.
#[verifier::external_body]
fn negotiated_suite(conn: &rustls::Connection) -> (r: Option<CipherSuite>) {
    let s = match conn.negotiated_cipher_suite() {
        Some(s) => s,
        None => return None,
    };
    let (version, bulk) = match s {
        rustls::SupportedCipherSuite::Tls12(t) => (TlsVersion::Tls12, &t.common.bulk),
        rustls::SupportedCipherSuite::Tls13(t) => (TlsVersion::Tls13, &t.common.bulk),
    };
    let bulk = match bulk {
        rustls::BulkAlgorithm::Aes128Gcm => BulkCipher::Aes128Gcm,
        rustls::BulkAlgorithm::Aes256Gcm => BulkCipher::Aes256Gcm,
        rustls::BulkAlgorithm::Chacha20Poly1305 => BulkCipher::Chacha20Poly1305,
    };
    Some(CipherSuite { version, bulk })
}

/// Relies on rustls::ExtractedSecrets: its `tx` and `rx` fields hold each
/// direction's starting sequence number and key material.
#[verifier::external_body]
fn split_secrets(s: rustls::ExtractedSecrets) -> (r: (
    (u64, rustls::ConnectionTrafficSecrets),
    (u64, rustls::ConnectionTrafficSecrets),
)) {
    (s.tx, s.rx)
}

/// Relies on rustls::ConnectionTrafficSecrets: each variant carries key,
/// salt and IV as fixed-size arrays with its bulk-cipher family's lengths
/// (ChaCha20-Poly1305 has no salt).  A variant this crate does not know is
/// one the kernel-facing format cannot encode.
#[verifier::external_body]
fn direction_secret(seq: u64, keys: rustls::ConnectionTrafficSecrets) -> (r: Result<
    TrafficSecret,
    Error,
>)
    ensures
        r matches Ok(s) ==> s.wf() && s@.seq == seq,
        r matches Err(e) ==> e == Error::KtlsCompatibility,
{
    match keys {
        rustls::ConnectionTrafficSecrets::Aes128Gcm { key, salt, iv } =>
            Ok(TrafficSecret { family: BulkCipher::Aes128Gcm, seq, key: key.to_vec(), salt: salt.to_vec(), iv: iv.to_vec() }),
        rustls::ConnectionTrafficSecrets::Aes256Gcm { key, salt, iv } =>
            Ok(TrafficSecret { family: BulkCipher::Aes256Gcm, seq, key: key.to_vec(), salt: salt.to_vec(), iv: iv.to_vec() }),
        rustls::ConnectionTrafficSecrets::Chacha20Poly1305 { key, iv } =>
            Ok(TrafficSecret { family: BulkCipher::Chacha20Poly1305, seq, key: key.to_vec(), salt: Vec::new(), iv: iv.to_vec() }),
        _ => Err(Error::KtlsCompatibility),
    }
}

/// What a completed session hands the pipeline: the negotiated suite and
/// both directions' traffic secrets.
pub struct SessionSecrets {
    pub suite: CipherSuite,
    pub tx: TrafficSecret,
    pub rx: TrafficSecret,
}

/// Reads the negotiated cipher suite and exports the traffic secrets,
/// consuming the session.  When no suite was negotiated — activation before
/// a completed handshake — the session is handed back untouched, still
/// usable for software TLS; once secret export has been attempted the
/// session is consumed and cannot be returned.
pub fn prepare_session(conn: rustls::Connection) -> (r: Result<
    SessionSecrets,
    (Error, Option<rustls::Connection>),
>)
    ensures
        r matches Ok(s) ==> s.tx.wf() && s.rx.wf(),
        r matches Err(e) ==> e.0 == Error::NoNegotiatedCipherSuite && e.1 is Some || (
        e.0 == Error::ExportSecrets || e.0 == Error::KtlsCompatibility) && e.1 is None,
{
    let suite = match negotiated_suite(&conn) {
        Some(s) => s,
        None => {
            return Err((Error::NoNegotiatedCipherSuite, Some(conn)));
        },
    };
    let secrets = match extract_secrets(conn) {
        Some(s) => s,
        None => {
            return Err((Error::ExportSecrets, None));
        },
    };
    let (tx_raw, rx_raw) = split_secrets(secrets);
    let tx = match direction_secret(tx_raw.0, tx_raw.1) {
        Ok(t) => t,
        Err(e) => {
            return Err((e, None));
        },
    };
    let rx = match direction_secret(rx_raw.0, rx_raw.1) {
        Ok(t) => t,
        Err(e) => {
            return Err((e, None));
        },
    };
    Ok(SessionSecrets { suite, tx, rx })
}

/// Translates both directions' secrets for the negotiated suite and readies
/// the configuration machine, consuming the secrets.  Fails exactly when a
/// translation fails, with the transmit direction decided first.
pub fn plan_configuration(s: SessionSecrets) -> (r: Result<Configurator, Error>)
    ensures
        r matches Ok(m) ==> {
            &&& m.phase == ConfigPhase::UlpPending
            &&& m.tx matches Some(ti) && spec_translate(s.suite, s.tx@) == Ok::<
                CryptoInfoV,
                Error,
            >(ti@)
            &&& m.rx matches Some(ri) && spec_translate(s.suite, s.rx@) == Ok::<
                CryptoInfoV,
                Error,
            >(ri@)
        },
        r matches Err(e) ==> spec_translate(s.suite, s.tx@) == Err::<CryptoInfoV, Error>(e) || (
        spec_translate(s.suite, s.tx@) is Ok && spec_translate(s.suite, s.rx@) == Err::<
            CryptoInfoV,
            Error,
        >(e)),
{
    let SessionSecrets { suite, tx, rx } = s;
    let tx_info = match translate(suite, tx) {
        Ok(i) => i,
        Err(e) => {
            return Err(e);
        },
    };
    let rx_info = match translate(suite, rx) {
        Ok(i) => i,
        Err(e) => {
            return Err(e);
        },
    };
    Ok(Configurator::new(tx_info, rx_info))
}

} // verus!
