//! The kernel compatibility table built by the cipher prober.
//!
//! The prober exercises the socket configurator once per tested
//! (version, bulk cipher) combination and records each outcome here.  The
//! table is built once at process start and read-only afterwards; callers
//! consult it as an advisory pre-check before attempting activation.

use vstd::prelude::*;

use crate::suites::BulkCipher;
use crate::suites::CipherSuite;
use crate::suites::TlsVersion;

verus! {

/// The probed flags for one TLS protocol version: one flag per supported
/// bulk-cipher family.
#[derive(Clone, Copy, Debug, PartialEq, Eq, Structural)]
pub struct CompatibleCiphersForVersion {
    pub aes_gcm_128: bool,
    pub aes_gcm_256: bool,
    pub chacha20_poly1305: bool,
}

/// The whole compatibility table: one record per TLS protocol version.
#[derive(Clone, Copy, Debug, PartialEq, Eq, Structural)]
pub struct CompatibleCiphers {
    pub tls12: CompatibleCiphersForVersion,
    pub tls13: CompatibleCiphersForVersion,
}

impl CompatibleCiphersForVersion {
    /// The flag this record holds for `bulk`.
    pub open spec fn spec_flag(self, bulk: BulkCipher) -> bool {
        match bulk {
            BulkCipher::Aes128Gcm => self.aes_gcm_128,
            BulkCipher::Aes256Gcm => self.aes_gcm_256,
            BulkCipher::Chacha20Poly1305 => self.chacha20_poly1305,
        }
    }
}

/// The record with every flag false.
pub open spec fn spec_no_flags() -> CompatibleCiphersForVersion {
    CompatibleCiphersForVersion { aes_gcm_128: false, aes_gcm_256: false, chacha20_poly1305: false }
}

/// The table with every flag false: what probing starts from, and what it
/// ends with on a kernel without any kTLS support.
pub open spec fn spec_empty_table() -> CompatibleCiphers {
    CompatibleCiphers { tls12: spec_no_flags(), tls13: spec_no_flags() }
}

impl Default for CompatibleCiphersForVersion {
    /// Every flag starts false: nothing is compatible until probed.
    fn default() -> (r: Self)
        ensures
            r == spec_no_flags(),
    {
        CompatibleCiphersForVersion {
            aes_gcm_128: false,
            aes_gcm_256: false,
            chacha20_poly1305: false,
        }
    }
}

impl Default for CompatibleCiphers {
    /// Every flag starts false: nothing is compatible until probed.
    fn default() -> (r: Self)
        ensures
            r == spec_empty_table(),
    {
        CompatibleCiphers { tls12: Default::default(), tls13: Default::default() }
    }
}

impl CompatibleCiphers {
    /// The version record this table holds for `version`.
    pub open spec fn spec_bucket(self, version: TlsVersion) -> CompatibleCiphersForVersion {
        match version {
            TlsVersion::Tls12 => self.tls12,
            TlsVersion::Tls13 => self.tls13,
        }
    }

    /// The flag this table holds for `suite`: its version's record, at its
    /// bulk-cipher family.
    pub open spec fn spec_flag(self, suite: CipherSuite) -> bool {
        self.spec_bucket(suite.version).spec_flag(suite.bulk)
    }

    /// True exactly when probing recorded a success for `suite`'s version
    /// and bulk-cipher family.  Advisory only: a true flag means the socket
    /// configurator is likely, not guaranteed, to succeed.
    pub fn is_compatible(&self, suite: &CipherSuite) -> (r: bool)
        ensures
            r == self.spec_flag(*suite),
    {
        let bucket = match suite.version {
            TlsVersion::Tls12 => &self.tls12,
            TlsVersion::Tls13 => &self.tls13,
        };
        match suite.bulk {
            BulkCipher::Aes128Gcm => bucket.aes_gcm_128,
            BulkCipher::Aes256Gcm => bucket.aes_gcm_256,
            BulkCipher::Chacha20Poly1305 => bucket.chacha20_poly1305,
        }
    }

    /// Records one probe outcome: sets `suite`'s flag to `ok` and leaves
    /// every other flag as it was.
    pub fn record_result(&mut self, suite: CipherSuite, ok: bool)
        ensures
            *final(self) == spec_record(*old(self), suite, ok),
    {
        let bucket = match suite.version {
            TlsVersion::Tls12 => &mut self.tls12,
            TlsVersion::Tls13 => &mut self.tls13,
        };
        match suite.bulk {
            BulkCipher::Aes128Gcm => bucket.aes_gcm_128 = ok,
            BulkCipher::Aes256Gcm => bucket.aes_gcm_256 = ok,
            BulkCipher::Chacha20Poly1305 => bucket.chacha20_poly1305 = ok,
        }
    }

    /// Records a batch of probe outcomes, in order.
    pub fn apply_results(&mut self, results: &Vec<(CipherSuite, bool)>)
        ensures
            *final(self) == spec_apply(*old(self), results@),
    {
        let ghost t0 = *self;
        let mut k: usize = 0;
        while k < results.len()
            invariant
                k <= results@.len(),
                *self == spec_apply(t0, results@.take(k as int)),
            decreases results@.len() - k,
        {
            let (suite, ok) = results[k];
            self.record_result(suite, ok);
            k = k + 1;
            proof {
                assert(results@.take(k as int).drop_last() =~= results@.take(k as int - 1));
            }
        }
        proof {
            assert(results@.take(results@.len() as int) =~= results@);
        }
    }
}

/// What [`CompatibleCiphers::record_result`] does to a table.
pub open spec fn spec_record(t: CompatibleCiphers, suite: CipherSuite, ok: bool) -> CompatibleCiphers {
    let bucket = t.spec_bucket(suite.version);
    let bucket2 = match suite.bulk {
        BulkCipher::Aes128Gcm => CompatibleCiphersForVersion { aes_gcm_128: ok, ..bucket },
        BulkCipher::Aes256Gcm => CompatibleCiphersForVersion { aes_gcm_256: ok, ..bucket },
        BulkCipher::Chacha20Poly1305 => CompatibleCiphersForVersion {
            chacha20_poly1305: ok,
            ..bucket
        },
    };
    match suite.version {
        TlsVersion::Tls12 => CompatibleCiphers { tls12: bucket2, ..t },
        TlsVersion::Tls13 => CompatibleCiphers { tls13: bucket2, ..t },
    }
}

/// What a sequence of recorded probe outcomes does to a table.
pub open spec fn spec_apply(t: CompatibleCiphers, rs: Seq<(CipherSuite, bool)>) -> CompatibleCiphers
    decreases rs.len(),
{
    if rs.len() == 0 {
        t
    } else {
        spec_record(spec_apply(t, rs.drop_last()), rs.last().0, rs.last().1)
    }
}

/// The table probing builds from the given outcomes: start with no flags
/// set, record each outcome.
pub open spec fn spec_table_of(rs: Seq<(CipherSuite, bool)>) -> CompatibleCiphers {
    spec_apply(spec_empty_table(), rs)
}

/// Recording an outcome for one suite changes that suite's flag to the
/// outcome and no other flag.
pub proof fn lemma_record_flag(
    t: CompatibleCiphers,
    suite: CipherSuite,
    ok: bool,
    other: CipherSuite,
)
    ensures
        spec_record(t, suite, ok).spec_flag(other) == if other == suite {
            ok
        } else {
            t.spec_flag(other)
        },
{
}

/// A table with every flag false deems every suite incompatible: when the
/// kernel supports kTLS for none of the probed combinations, no suite is
/// ever reported compatible.
pub proof fn lemma_empty_table_incompatible(suite: CipherSuite)
    ensures
        !spec_empty_table().spec_flag(suite),
{
}

/// A suite's flag is true only if probing recorded a success for exactly
/// that suite: the table never reports compatible a version/cipher pair
/// that no probe succeeded for.
pub proof fn lemma_flag_only_from_recorded(rs: Seq<(CipherSuite, bool)>, suite: CipherSuite)
    requires
        spec_table_of(rs).spec_flag(suite),
    ensures
        exists|i: int| 0 <= i < rs.len() && rs[i] == (suite, true),
    decreases rs.len(),
{
    if rs.len() == 0 {
        assert(!spec_empty_table().spec_flag(suite));
    } else {
        let prefix = rs.drop_last();
        let last = rs.last();
        lemma_record_flag(spec_table_of(prefix), last.0, last.1, suite);
        if last.0 == suite && last.1 {
            assert(rs[rs.len() - 1] == (suite, true));
        } else {
            lemma_flag_only_from_recorded(prefix, suite);
            let i = choose|i: int| 0 <= i < prefix.len() && prefix[i] == (suite, true);
            assert(rs[i] == (suite, true));
        }
    }
}

/// On a kernel without any kTLS support every probe fails, and the table
/// built from those outcomes reports every suite incompatible.
pub proof fn lemma_all_failures_incompatible(rs: Seq<(CipherSuite, bool)>, suite: CipherSuite)
    requires
        forall|i: int| 0 <= i < rs.len() ==> !(#[trigger] rs[i]).1,
    ensures
        !spec_table_of(rs).spec_flag(suite),
{
    if spec_table_of(rs).spec_flag(suite) {
        lemma_flag_only_from_recorded(rs, suite);
        let i = choose|i: int| 0 <= i < rs.len() && rs[i] == (suite, true);
        assert(!rs[i].1);
    }
}

/// The six combinations the prober tests, identity fixed, order
/// insignificant: each TLS version with each bulk-cipher family.
pub open spec fn spec_tested_suites() -> Seq<CipherSuite> {
    seq![
        CipherSuite { version: TlsVersion::Tls13, bulk: BulkCipher::Aes128Gcm },
        CipherSuite { version: TlsVersion::Tls13, bulk: BulkCipher::Aes256Gcm },
        CipherSuite { version: TlsVersion::Tls13, bulk: BulkCipher::Chacha20Poly1305 },
        CipherSuite { version: TlsVersion::Tls12, bulk: BulkCipher::Aes128Gcm },
        CipherSuite { version: TlsVersion::Tls12, bulk: BulkCipher::Aes256Gcm },
        CipherSuite { version: TlsVersion::Tls12, bulk: BulkCipher::Chacha20Poly1305 },
    ]
}

/// The six combinations the prober tests, as a vector.
pub fn tested_suites() -> (r: Vec<CipherSuite>)
    ensures
        r@ == spec_tested_suites(),
{
    let mut r: Vec<CipherSuite> = Vec::new();
    r.push(CipherSuite { version: TlsVersion::Tls13, bulk: BulkCipher::Aes128Gcm });
    r.push(CipherSuite { version: TlsVersion::Tls13, bulk: BulkCipher::Aes256Gcm });
    r.push(CipherSuite { version: TlsVersion::Tls13, bulk: BulkCipher::Chacha20Poly1305 });
    r.push(CipherSuite { version: TlsVersion::Tls12, bulk: BulkCipher::Aes128Gcm });
    r.push(CipherSuite { version: TlsVersion::Tls12, bulk: BulkCipher::Aes256Gcm });
    r.push(CipherSuite { version: TlsVersion::Tls12, bulk: BulkCipher::Chacha20Poly1305 });
    proof {
        assert(r@ =~= spec_tested_suites());
    }
    r
}

/// Every suite the table can speak of — every version paired with every
/// bulk-cipher family — is among the tested combinations, so a flag can
/// never stand for an untested pair.
pub proof fn lemma_tested_suites_cover(suite: CipherSuite)
    ensures
        spec_tested_suites().contains(suite),
{
    let ts = spec_tested_suites();
    match (suite.version, suite.bulk) {
        (TlsVersion::Tls13, BulkCipher::Aes128Gcm) => assert(ts[0] == suite),
        (TlsVersion::Tls13, BulkCipher::Aes256Gcm) => assert(ts[1] == suite),
        (TlsVersion::Tls13, BulkCipher::Chacha20Poly1305) => assert(ts[2] == suite),
        (TlsVersion::Tls12, BulkCipher::Aes128Gcm) => assert(ts[3] == suite),
        (TlsVersion::Tls12, BulkCipher::Aes256Gcm) => assert(ts[4] == suite),
        (TlsVersion::Tls12, BulkCipher::Chacha20Poly1305) => assert(ts[5] == suite),
    }
}

} // verus!
