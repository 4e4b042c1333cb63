//! Per-direction traffic secrets, as handed out by a completed handshake.
//!
//! A secret is key material plus the starting record sequence number for one
//! direction.  It is sensitive: it is passed around by value and dropped as
//! soon as it has been translated into the kernel's representation.

use vstd::prelude::*;

use crate::suites::BulkCipher;

verus! {

/// The mathematical value of a [`TrafficSecret`].
pub struct TrafficSecretV {
    pub family: BulkCipher,
    pub seq: u64,
    pub key: Seq<u8>,
    pub salt: Seq<u8>,
    pub iv: Seq<u8>,
}

impl TrafficSecretV {
    /// The key material has exactly the lengths its bulk-cipher family calls
    /// for.
    pub open spec fn wf(self) -> bool {
        &&& self.key.len() == self.family.spec_key_len()
        &&& self.salt.len() == self.family.spec_salt_len()
        &&& self.iv.len() == self.family.spec_iv_len()
    }
}

/// One direction's key material and starting record sequence number.
///
/// `salt` is the implicit part of the nonce and is empty for
/// ChaCha20-Poly1305, whose whole nonce lives in `iv`.
#[derive(Clone, Debug, PartialEq, Eq)]
pub struct TrafficSecret {
    pub family: BulkCipher,
    pub seq: u64,
    pub key: Vec<u8>,
    pub salt: Vec<u8>,
    pub iv: Vec<u8>,
}

impl View for TrafficSecret {
    type V = TrafficSecretV;

    open spec fn view(&self) -> TrafficSecretV {
        TrafficSecretV {
            family: self.family,
            seq: self.seq,
            key: self.key@,
            salt: self.salt@,
            iv: self.iv@,
        }
    }
}

impl TrafficSecret {
    /// The key material has exactly the lengths its bulk-cipher family calls
    /// for.
    pub open spec fn wf(self) -> bool {
        self@.wf()
    }
}

/// A vector of `n` zero bytes.
fn zero_bytes(n: usize) -> (r: Vec<u8>)
    ensures
        r@ == Seq::<u8>::new(n as nat, |i: int| 0u8),
{
    let mut r: Vec<u8> = Vec::new();
    let mut k: usize = 0;
    while k < n
        invariant
            k <= n,
            r@ == Seq::<u8>::new(k as nat, |i: int| 0u8),
        decreases n - k,
    {
        r.push(0u8);
        k = k + 1;
        proof {
            assert(r@ =~= Seq::<u8>::new(k as nat, |i: int| 0u8));
        }
    }
    r
}

/// The all-zero placeholder secret for `family`, with sequence number zero.
pub open spec fn spec_zero_secret(family: BulkCipher) -> TrafficSecretV {
    TrafficSecretV {
        family,
        seq: 0u64,
        key: Seq::<u8>::new(family.spec_key_len(), |i: int| 0u8),
        salt: Seq::<u8>::new(family.spec_salt_len(), |i: int| 0u8),
        iv: Seq::<u8>::new(family.spec_iv_len(), |i: int| 0u8),
    }
}

/// A placeholder secret for `family` whose key material is all zeroes, with
/// sequence number zero: what a compatibility probe installs, so that the
/// probe exercises exactly the payload shape a real activation would use.
pub fn zero_secret(family: BulkCipher) -> (r: TrafficSecret)
    ensures
        r.wf(),
        r@ == spec_zero_secret(family),
{
    TrafficSecret {
        family,
        seq: 0,
        key: zero_bytes(family.key_len()),
        salt: zero_bytes(family.salt_len()),
        iv: zero_bytes(family.iv_len()),
    }
}

} // verus!
