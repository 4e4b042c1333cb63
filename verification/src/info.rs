//! The CryptoInfo translator: from a negotiated suite and one direction's
//! traffic secret to the kernel's crypto-parameter payload.
//!
//! The payload is modelled as plain data — cipher/version identity, key
//! material and the starting sequence number in network byte order — and the
//! translation is a pure function of its inputs.

use vstd::prelude::*;

use crate::error::Error;
use crate::secrets::TrafficSecret;
use crate::secrets::TrafficSecretV;
use crate::suites::BulkCipher;
use crate::suites::CipherSuite;
use crate::suites::TlsVersion;

verus! {

/// The mathematical value of a [`CryptoInfo`].
pub struct CryptoInfoV {
    pub version: TlsVersion,
    pub cipher: BulkCipher,
    pub key: Seq<u8>,
    pub salt: Seq<u8>,
    pub iv: Seq<u8>,
    pub rec_seq: Seq<u8>,
}

impl CryptoInfoV {
    /// The field lengths the kernel expects of this payload.
    pub open spec fn wf(self) -> bool {
        &&& self.key.len() == self.cipher.spec_key_len()
        &&& self.salt.len() == self.cipher.spec_salt_len()
        &&& self.iv.len() == self.cipher.spec_iv_len()
        &&& self.rec_seq.len() == 8
    }
}

/// One direction's kernel crypto parameters: the cipher/version identity,
/// the key material, and the starting record sequence number in network
/// byte order.  A transient conversion artifact: constructed, handed to the
/// socket configurator, and discarded.
#[derive(Clone, Debug, PartialEq, Eq)]
pub struct CryptoInfo {
    pub version: TlsVersion,
    pub cipher: BulkCipher,
    pub key: Vec<u8>,
    pub salt: Vec<u8>,
    pub iv: Vec<u8>,
    pub rec_seq: Vec<u8>,
}

impl View for CryptoInfo {
    type V = CryptoInfoV;

    open spec fn view(&self) -> CryptoInfoV {
        CryptoInfoV {
            version: self.version,
            cipher: self.cipher,
            key: self.key@,
            salt: self.salt@,
            iv: self.iv@,
            rec_seq: self.rec_seq@,
        }
    }
}

impl CryptoInfo {
    /// The field lengths the kernel expects of this payload.
    pub open spec fn wf(self) -> bool {
        self@.wf()
    }
}

/// The eight bytes of `x` in network (big-endian) byte order.
pub open spec fn spec_be_bytes(x: u64) -> Seq<u8> {
    seq![
        (x >> 56) as u8,
        (x >> 48) as u8,
        (x >> 40) as u8,
        (x >> 32) as u8,
        (x >> 24) as u8,
        (x >> 16) as u8,
        (x >> 8) as u8,
        x as u8,
    ]
}

/// Writes `x` in network (big-endian) byte order.
pub fn be_bytes(x: u64) -> (r: Vec<u8>)
    ensures
        r@ == spec_be_bytes(x),
{
    let mut r: Vec<u8> = Vec::new();
    r.push((x >> 56) as u8);
    r.push((x >> 48) as u8);
    r.push((x >> 40) as u8);
    r.push((x >> 32) as u8);
    r.push((x >> 24) as u8);
    r.push((x >> 16) as u8);
    r.push((x >> 8) as u8);
    r.push(x as u8);
    proof {
        assert(r@ =~= spec_be_bytes(x));
    }
    r
}

/// What the translator returns: the payload for a well-formed secret of the
/// suite's own bulk-cipher family, and a compatibility error otherwise.
pub open spec fn spec_translate(suite: CipherSuite, secret: TrafficSecretV) -> Result<
    CryptoInfoV,
    Error,
> {
    if secret.family == suite.bulk && secret.wf() {
        Ok(
            CryptoInfoV {
                version: suite.version,
                cipher: suite.bulk,
                key: secret.key,
                salt: secret.salt,
                iv: secret.iv,
                rec_seq: spec_be_bytes(secret.seq),
            },
        )
    } else {
        Err(Error::KtlsCompatibility)
    }
}

/// The view of a translation result.
pub open spec fn translation_view(r: Result<CryptoInfo, Error>) -> Result<CryptoInfoV, Error> {
    match r {
        Ok(info) => Ok(info@),
        Err(e) => Err(e),
    }
}

/// Translates one direction's traffic secret into the kernel's crypto
/// parameters for `suite`.  Pure: no side effects, no socket touched.  It
/// succeeds exactly when the secret belongs to the suite's bulk-cipher
/// family and its key material has that family's lengths; otherwise the
/// secret is rejected as not representable.
pub fn translate(suite: CipherSuite, secret: TrafficSecret) -> (r: Result<CryptoInfo, Error>)
    ensures
        translation_view(r) == spec_translate(suite, secret@),
        r matches Ok(info) ==> info.wf(),
{
    if !(secret.family == suite.bulk) {
        return Err(Error::KtlsCompatibility);
    }
    let expected_key: usize = secret.family.key_len();
    let expected_salt: usize = secret.family.salt_len();
    let expected_iv: usize = secret.family.iv_len();
    if secret.key.len() != expected_key || secret.salt.len() != expected_salt
        || secret.iv.len() != expected_iv {
        return Err(Error::KtlsCompatibility);
    }
    let rec_seq = be_bytes(secret.seq);
    Ok(
        CryptoInfo {
            version: suite.version,
            cipher: suite.bulk,
            key: secret.key,
            salt: secret.salt,
            iv: secret.iv,
            rec_seq,
        },
    )
}

/// The translator is a pure function: two runs on identical inputs produce
/// bit-identical payloads.
pub proof fn lemma_translate_deterministic(
    suite: CipherSuite,
    s1: TrafficSecretV,
    s2: TrafficSecretV,
    r1: Result<CryptoInfoV, Error>,
    r2: Result<CryptoInfoV, Error>,
)
    requires
        s1 == s2,
        r1 == spec_translate(suite, s1),
        r2 == spec_translate(suite, s2),
    ensures
        r1 == r2,
{
}

} // verus!
