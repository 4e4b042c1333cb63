use std::sync::Arc;

use ktls::Error;
use ktls::prepare_session;

fn unfinished_connection() -> rustls::Connection {
    let roots = rustls::RootCertStore::empty();
    let config = rustls::ClientConfig::builder()
        .with_safe_defaults()
        .with_root_certificates(roots)
        .with_no_client_auth();
    let name = rustls::ServerName::try_from("localhost").unwrap();
    let conn = rustls::ClientConnection::new(Arc::new(config), name).unwrap();
    rustls::Connection::Client(conn)
}

#[test]
fn activation_before_handshake_returns_the_session() {
    let conn = unfinished_connection();
    match prepare_session(conn) {
        Err((e, Some(back))) => {
            assert_eq!(e, Error::NoNegotiatedCipherSuite);
            // The session comes back untouched and still usable.
            assert!(back.is_handshaking());
            assert!(back.negotiated_cipher_suite().is_none());
        },
        Err((e, None)) => panic!("session must be returned with {:?}", e),
        Ok(_) => panic!("no suite was negotiated"),
    }
}

#[test]
fn error_variants_carry_their_codes() {
    assert_eq!(Error::UlpError(95), Error::UlpError(95));
    assert_ne!(Error::UlpError(95), Error::UlpError(1));
    assert_ne!(Error::UlpError(95), Error::TlsCryptoInfoError(95));
    assert_ne!(Error::ConnectionError(1), Error::UlpError(1));
    assert_eq!(Error::NoNegotiatedCipherSuite, Error::NoNegotiatedCipherSuite);
    assert_ne!(Error::ExportSecrets, Error::KtlsCompatibility);
}
