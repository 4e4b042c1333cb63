//! The drain step: capturing already-decrypted plaintext without blocking.
//!
//! Before the kernel takes over the socket, whatever plaintext the software
//! TLS layer has already decrypted but nobody has read must be captured.
//! The caller polls the decrypted-plaintext interface once with a no-op
//! wake context — so the poll can only observe bytes that are already
//! there, never wait for more — and hands the outcome here.

use vstd::prelude::*;

verus! {

/// The outcome of the single non-blocking poll: how many bytes of the
/// scratch buffer were filled, or that the stream was not ready.
#[derive(Clone, Copy, Debug, PartialEq, Eq, Structural)]
pub enum DrainPoll {
    /// The poll completed and this many leading bytes of the buffer hold
    /// the data it found.
    Filled(usize),
    /// The poll would have had to wait: no byte is ready.
    NotReady,
}

/// Decides what the drain step returns: exactly the bytes the poll found —
/// all of them, in order, and nothing more — or no buffer at all when the
/// stream was not ready.
pub fn drain_outcome(buf: Vec<u8>, poll: DrainPoll) -> (r: Option<Vec<u8>>)
    requires
        poll matches DrainPoll::Filled(n) ==> n <= buf@.len(),
    ensures
        poll is NotReady ==> r is None,
        poll matches DrainPoll::Filled(n) ==> r matches Some(v) && v@ == buf@.take(n as int),
{
    match poll {
        DrainPoll::NotReady => None,
        DrainPoll::Filled(n) => {
            let mut out: Vec<u8> = Vec::new();
            let mut k: usize = 0;
            while k < n
                invariant
                    k <= n,
                    n <= buf@.len(),
                    out@ == buf@.take(k as int),
                decreases n - k,
            {
                out.push(buf[k]);
                k = k + 1;
                proof {
                    assert(out@ =~= buf@.take(k as int));
                }
            }
            Some(out)
        },
    }
}

} // verus!
