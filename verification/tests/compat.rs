use ktls::BulkCipher;
use ktls::CipherSuite;
use ktls::CompatibleCiphers;
use ktls::TlsVersion;
use ktls::tested_suites;

fn all_suites() -> Vec<CipherSuite> {
    let mut v = Vec::new();
    for version in [TlsVersion::Tls12, TlsVersion::Tls13] {
        for bulk in [BulkCipher::Aes128Gcm, BulkCipher::Aes256Gcm, BulkCipher::Chacha20Poly1305] {
            v.push(CipherSuite { version, bulk });
        }
    }
    v
}

#[test]
fn default_table_reports_nothing_compatible() {
    let t = CompatibleCiphers::default();
    for s in all_suites() {
        assert!(!t.is_compatible(&s));
    }
}

#[test]
fn all_probes_failing_leaves_every_suite_incompatible() {
    let mut t = CompatibleCiphers::default();
    let results: Vec<(CipherSuite, bool)> = tested_suites().into_iter().map(|s| (s, false)).collect();
    t.apply_results(&results);
    for s in all_suites() {
        assert!(!t.is_compatible(&s));
    }
}

#[test]
fn recording_one_success_sets_only_that_suite() {
    for probed in all_suites() {
        let mut t = CompatibleCiphers::default();
        t.record_result(probed, true);
        for s in all_suites() {
            assert_eq!(t.is_compatible(&s), s == probed);
        }
    }
}

#[test]
fn recording_overwrites_earlier_outcome() {
    let s = CipherSuite { version: TlsVersion::Tls13, bulk: BulkCipher::Aes128Gcm };
    let mut t = CompatibleCiphers::default();
    t.record_result(s, true);
    assert!(t.is_compatible(&s));
    t.record_result(s, false);
    assert!(!t.is_compatible(&s));
}

#[test]
fn apply_results_mixed_batch() {
    let mut t = CompatibleCiphers::default();
    let yes12 = CipherSuite { version: TlsVersion::Tls12, bulk: BulkCipher::Aes256Gcm };
    let yes13 = CipherSuite { version: TlsVersion::Tls13, bulk: BulkCipher::Chacha20Poly1305 };
    let no13 = CipherSuite { version: TlsVersion::Tls13, bulk: BulkCipher::Aes128Gcm };
    t.apply_results(&vec![(yes12, true), (no13, false), (yes13, true)]);
    assert!(t.is_compatible(&yes12));
    assert!(t.is_compatible(&yes13));
    assert!(!t.is_compatible(&no13));
    assert!(t.tls12.aes_gcm_256);
    assert!(t.tls13.chacha20_poly1305);
    assert!(!t.tls13.aes_gcm_128);
    assert!(!t.tls12.aes_gcm_128);
}

#[test]
fn tested_suites_are_the_six_fixed_combinations() {
    let ts = tested_suites();
    assert_eq!(ts.len(), 6);
    for s in all_suites() {
        assert!(ts.contains(&s));
    }
    assert_eq!(ts[0], CipherSuite { version: TlsVersion::Tls13, bulk: BulkCipher::Aes128Gcm });
    assert_eq!(ts[3], CipherSuite { version: TlsVersion::Tls12, bulk: BulkCipher::Aes128Gcm });
}
