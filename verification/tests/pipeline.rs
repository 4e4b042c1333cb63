use ktls::BulkCipher;
use ktls::CipherSuite;
use ktls::ConfigAction;
use ktls::ConfigPhase;
use ktls::Configurator;
use ktls::Direction;
use ktls::Error;
use ktls::SessionSecrets;
use ktls::TlsVersion;
use ktls::plan_configuration;
use ktls::probe_payload;
use ktls::translate;
use ktls::zero_secret;

fn s13aes() -> CipherSuite {
    CipherSuite { version: TlsVersion::Tls13, bulk: BulkCipher::Aes128Gcm }
}

#[test]
fn success_path_orders_ulp_tx_rx() {
    let tx = probe_payload(s13aes());
    let rx = probe_payload(s13aes());
    let mut m = Configurator::new(tx.clone(), rx.clone());
    assert_eq!(m.phase, ConfigPhase::UlpPending);
    assert_eq!(m.step(Ok(())), ConfigAction::SetCryptoInfo(Direction::Tx, tx));
    assert_eq!(m.phase, ConfigPhase::TxPending);
    assert_eq!(m.step(Ok(())), ConfigAction::SetCryptoInfo(Direction::Rx, rx));
    assert_eq!(m.phase, ConfigPhase::RxPending);
    assert_eq!(m.step(Ok(())), ConfigAction::Finish);
    assert_eq!(m.phase, ConfigPhase::Done);
}

#[test]
fn ulp_failure_blocks_all_crypto_configuration() {
    let mut m = Configurator::new(probe_payload(s13aes()), probe_payload(s13aes()));
    assert_eq!(m.step(Err(95)), ConfigAction::Abort(Error::UlpError(95)));
    assert_eq!(m.phase, ConfigPhase::Failed(Error::UlpError(95)));
    for outcome in [Ok(()), Err(1), Ok(())] {
        match m.step(outcome) {
            ConfigAction::Abort(e) => assert_eq!(e, Error::UlpError(95)),
            a => panic!("a failed machine may only abort, got {:?}", a),
        }
    }
}

#[test]
fn tx_failure_aborts_with_crypto_error() {
    let mut m = Configurator::new(probe_payload(s13aes()), probe_payload(s13aes()));
    m.step(Ok(()));
    assert_eq!(m.step(Err(22)), ConfigAction::Abort(Error::TlsCryptoInfoError(22)));
    assert_eq!(m.phase, ConfigPhase::Failed(Error::TlsCryptoInfoError(22)));
}

#[test]
fn rx_failure_aborts_with_crypto_error() {
    let mut m = Configurator::new(probe_payload(s13aes()), probe_payload(s13aes()));
    m.step(Ok(()));
    m.step(Ok(()));
    assert_eq!(m.step(Err(5)), ConfigAction::Abort(Error::TlsCryptoInfoError(5)));
}

#[test]
fn plan_holds_both_translated_directions() {
    let suite = s13aes();
    let tx = zero_secret(BulkCipher::Aes128Gcm);
    let mut rx = zero_secret(BulkCipher::Aes128Gcm);
    rx.seq = 3;
    let expect_tx = translate(suite, tx.clone()).unwrap();
    let expect_rx = translate(suite, rx.clone()).unwrap();
    let m = plan_configuration(SessionSecrets { suite, tx, rx }).unwrap();
    assert_eq!(m.phase, ConfigPhase::UlpPending);
    assert_eq!(m.tx, Some(expect_tx));
    assert_eq!(m.rx, Some(expect_rx));
}

#[test]
fn plan_fails_when_a_direction_cannot_be_translated() {
    let suite = s13aes();
    let tx = zero_secret(BulkCipher::Aes128Gcm);
    let rx = zero_secret(BulkCipher::Aes256Gcm);
    let r = plan_configuration(SessionSecrets { suite, tx, rx });
    assert_eq!(r.unwrap_err(), Error::KtlsCompatibility);
    let tx = zero_secret(BulkCipher::Chacha20Poly1305);
    let rx = zero_secret(BulkCipher::Aes128Gcm);
    let r = plan_configuration(SessionSecrets { suite, tx, rx });
    assert_eq!(r.unwrap_err(), Error::KtlsCompatibility);
}
