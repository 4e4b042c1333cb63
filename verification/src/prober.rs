//! The prober's pairing of accepted connections to outbound sockets.
//!
//! While the prober connects to its own listener once per tested cipher,
//! connect/accept races interleave freely: an accepted connection may
//! belong to an earlier or a later outbound socket.  Each accepted
//! connection is therefore queued with its peer address, in arrival order,
//! and an outbound socket claims the one accepted connection whose peer
//! address equals the socket's locally bound address.  Connections that do
//! not match stay queued, in order, for a later iteration.

use vstd::prelude::*;

use crate::error::Error;
use crate::info::CryptoInfo;
use crate::info::CryptoInfoV;
use crate::info::spec_translate;
use crate::info::translate;
use crate::secrets::spec_zero_secret;
use crate::secrets::zero_secret;
use crate::suites::CipherSuite;

verus! {

/// The crypto payload a compatibility probe installs for `suite`: exactly
/// what a real activation would install — same cipher/version identity and
/// structure — with the key material zeroed and sequence number zero.
pub fn probe_payload(suite: CipherSuite) -> (r: CryptoInfo)
    ensures
        r.wf(),
        Ok::<CryptoInfoV, Error>(r@) == spec_translate(suite, spec_zero_secret(suite.bulk)),
{
    let z = zero_secret(suite.bulk);
    match translate(suite, z) {
        Ok(info) => info,
        Err(_) => vstd::pervasive::unreached(),
    }
}

/// A socket address reduced to plain values: address family, address bits
/// and port.  Two endpoints are the same exactly when all three agree.
#[derive(Clone, Copy, Debug, PartialEq, Eq, Structural)]
pub struct Endpoint {
    /// True for an IPv6 address, false for IPv4.
    pub v6: bool,
    /// The address bits, zero-extended for IPv4.
    pub ip: u128,
    /// The port number.
    pub port: u16,
}

/// The arrival-ordered queue of accepted connections not yet claimed.
/// Each entry is the caller's token for the connection (for instance its
/// index into the caller's own list) and the connection's peer address.
pub struct PendingConns {
    entries: Vec<(u64, Endpoint)>,
}

impl View for PendingConns {
    type V = Seq<(u64, Endpoint)>;

    closed spec fn view(&self) -> Seq<(u64, Endpoint)> {
        self.entries@
    }
}

/// The position of the first queued entry whose endpoint is `target`, or
/// the queue's length when none matches.
pub open spec fn spec_first_match(q: Seq<(u64, Endpoint)>, target: Endpoint) -> int
    decreases q.len(),
{
    if q.len() == 0 {
        0
    } else if q[0].1 == target {
        0
    } else {
        1 + spec_first_match(q.skip(1), target)
    }
}

/// What `spec_first_match` finds: an in-range position exactly when a match
/// exists, the entry there matches, and no earlier entry does.
pub proof fn lemma_first_match(q: Seq<(u64, Endpoint)>, target: Endpoint)
    ensures
        0 <= spec_first_match(q, target) <= q.len(),
        spec_first_match(q, target) < q.len() ==> q[spec_first_match(q, target)].1 == target,
        forall|j: int| 0 <= j < spec_first_match(q, target) ==> q[j].1 != target,
        spec_first_match(q, target) == q.len() ==> forall|j: int|
            0 <= j < q.len() ==> q[j].1 != target,
    decreases q.len(),
{
    if q.len() == 0 {
    } else if q[0].1 == target {
    } else {
        lemma_first_match(q.skip(1), target);
        let f = spec_first_match(q, target);
        assert forall|j: int| 0 <= j < f implies q[j].1 != target by {
            if j > 0 {
                assert(q.skip(1)[j - 1] == q[j]);
            }
        }
        if f == q.len() {
            assert forall|j: int| 0 <= j < q.len() implies q[j].1 != target by {
                if j > 0 {
                    assert(q.skip(1)[j - 1] == q[j]);
                }
            }
        } else {
            assert(q.skip(1)[f - 1] == q[f]);
        }
    }
}

impl PendingConns {
    /// An empty queue.
    pub fn new() -> (q: Self)
        ensures
            q@ == Seq::<(u64, Endpoint)>::empty(),
    {
        PendingConns { entries: Vec::new() }
    }

    /// Queues a newly accepted connection behind all earlier ones.
    pub fn push(&mut self, token: u64, peer: Endpoint)
        ensures
            final(self)@ == old(self)@.push((token, peer)),
    {
        self.entries.push((token, peer));
    }

    /// Claims the earliest accepted connection whose peer address is
    /// `target`: returns its token and removes exactly that entry, keeping
    /// every other entry in arrival order.  When no entry matches, returns
    /// nothing and keeps the queue as it was.
    pub fn claim(&mut self, target: Endpoint) -> (r: Option<u64>)
        ensures
            ({
                let f = spec_first_match(old(self)@, target);
                if f < old(self)@.len() {
                    &&& r == Some(old(self)@[f].0)
                    &&& final(self)@ == old(self)@.remove(f)
                } else {
                    &&& r is None
                    &&& final(self)@ == old(self)@
                }
            }),
    {
        proof {
            lemma_first_match(self@, target);
        }
        let mut k: usize = 0;
        while k < self.entries.len()
            invariant
                k <= self.entries@.len(),
                self.entries@ == old(self)@,
                forall|j: int| 0 <= j < k ==> self.entries@[j].1 != target,
            decreases self.entries@.len() - k,
        {
            if self.entries[k].1 == target {
                proof {
                    lemma_first_match(self.entries@, target);
                    let f = spec_first_match(self.entries@, target);
                    assert(f == k) by {
                        if f < k {
                            assert(self.entries@[f].1 != target);
                        }
                        if f > k {
                            assert(self.entries@[k as int].1 != target);
                        }
                    }
                }
                let (token, _) = self.entries.remove(k);
                return Some(token);
            }
            k = k + 1;
        }
        proof {
            lemma_first_match(self.entries@, target);
            let f = spec_first_match(self.entries@, target);
            if f < self.entries@.len() {
                assert(self.entries@[f].1 != target);
            }
        }
        None
    }

    /// How many connections wait unclaimed.
    pub fn len(&self) -> (n: usize)
        ensures
            n == self@.len(),
    {
        self.entries.len()
    }
}

} // verus!
