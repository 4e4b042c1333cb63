//! The post-handshake stream's read logic.
//!
//! A stream that has just been switched to kernel TLS may still hold
//! plaintext that the software TLS layer decrypted but nobody consumed.
//! Those leftover bytes must be served first, in order; only once they are
//! exhausted may reads go to the raw handle, whose bytes the kernel now
//! decrypts transparently.  The transition is one-way: once the buffer is
//! empty it stays empty.
//!
//! The raw handle itself is socket I/O and lives with the caller; this
//! module decides, for each read, whether it is served from the leftover
//! buffer (and with which bytes) or passed through to the raw handle.

use vstd::prelude::*;

verus! {

/// The leftover plaintext captured before activation, with the bytes
/// already served chopped off.  Its view is the sequence of bytes still to
/// be delivered before the raw handle may be read.
pub struct LeftoverBuffer {
    buf: Vec<u8>,
    pos: usize,
}

/// Where one read is served from.
#[derive(Clone, Debug, PartialEq, Eq)]
pub enum ReadStep {
    /// Serve exactly these bytes from the leftover buffer.
    Buffered(Vec<u8>),
    /// The buffer is exhausted: read the raw handle directly.
    Passthrough,
}

impl View for LeftoverBuffer {
    type V = Seq<u8>;

    closed spec fn view(&self) -> Seq<u8> {
        self.buf@.skip(self.pos as int)
    }
}

impl LeftoverBuffer {
    #[verifier::type_invariant]
    spec fn inv(self) -> bool {
        self.pos <= self.buf@.len()
    }

    /// Wraps the plaintext the drain step captured, if any.
    pub fn new(drained: Option<Vec<u8>>) -> (s: Self)
        ensures
            s@ == match drained {
                Some(d) => d@,
                None => Seq::<u8>::empty(),
            },
    {
        match drained {
            Some(d) => {
                let s = LeftoverBuffer { buf: d, pos: 0 };
                proof {
                    assert(s@ =~= s.buf@);
                }
                s
            },
            None => {
                let s = LeftoverBuffer { buf: Vec::new(), pos: 0 };
                proof {
                    assert(s@ =~= Seq::<u8>::empty());
                }
                s
            },
        }
    }

    /// True when nothing is left to serve and reads pass through.
    pub fn is_drained(&self) -> (r: bool)
        ensures
            r == (self@.len() == 0),
    {
        proof {
            use_type_invariant(&*self);
        }
        self.pos >= self.buf.len()
    }

    /// Decides one read of at most `want` bytes.  While leftover bytes
    /// remain, the read is served from them: exactly the first
    /// `min(want, remaining)` bytes, which the buffer then no longer holds.
    /// Only when no leftover byte remains does a read pass through to the
    /// raw handle, and from then on every read does.
    pub fn next_read(&mut self, want: usize) -> (r: ReadStep)
        ensures
            old(self)@.len() == 0 ==> r == ReadStep::Passthrough && final(self)@ == old(self)@,
            old(self)@.len() > 0 ==> {
                let n = vstd::math::min(want as int, old(self)@.len() as int);
                &&& r matches ReadStep::Buffered(b) && b@ == old(self)@.take(n)
                &&& final(self)@ == old(self)@.skip(n)
            },
    {
        proof {
            use_type_invariant(&*self);
        }
        if self.pos >= self.buf.len() {
            return ReadStep::Passthrough;
        }
        let remaining = self.buf.len() - self.pos;
        let n = if want < remaining {
            want
        } else {
            remaining
        };
        let mut out: Vec<u8> = Vec::new();
        let mut k: usize = 0;
        while k < n
            invariant
                k <= n,
                n <= remaining,
                remaining == self.buf@.len() - self.pos,
                self.pos + n <= self.buf@.len(),
                self.buf@.len() <= usize::MAX,
                out@ == self.buf@.subrange(self.pos as int, self.pos + k),
            decreases n - k,
        {
            out.push(self.buf[self.pos + k]);
            k = k + 1;
            proof {
                assert(out@ =~= self.buf@.subrange(self.pos as int, self.pos + k));
            }
        }
        self.pos = self.pos + n;
        proof {
            assert(out@ =~= old(self)@.take(n as int));
            assert(self@ =~= old(self)@.skip(n as int));
        }
        ReadStep::Buffered(out)
    }
}

/// Two successive buffered reads deliver a contiguous prefix of the
/// leftover bytes: serving `k1` bytes and then `k2` more yields, end to
/// end, exactly the first `k1 + k2` bytes, with no reordering, duplication
/// or loss.
pub proof fn lemma_reads_keep_order(leftover: Seq<u8>, k1: int, k2: int)
    requires
        0 <= k1,
        0 <= k2,
        k1 + k2 <= leftover.len(),
    ensures
        leftover.take(k1) + leftover.skip(k1).take(k2) == leftover.take(k1 + k2),
{
    assert(leftover.take(k1) + leftover.skip(k1).take(k2) =~= leftover.take(k1 + k2));
}

/// Serving the whole buffer and then reading `raw` from the handle yields
/// the leftover bytes followed by the raw bytes, in that order.
pub proof fn lemma_full_drain_then_raw(leftover: Seq<u8>, raw: Seq<u8>)
    ensures
        leftover.take(leftover.len() as int) + raw == leftover + raw,
{
    assert(leftover.take(leftover.len() as int) + raw =~= leftover + raw);
}

/// The bytes a whole sequence of reads is served from the buffer, end to
/// end, when the reads ask for `wants[0]`, `wants[1]`, ... bytes in turn:
/// each read takes the first `min(want, remaining)` bytes of what is left,
/// exactly as [`LeftoverBuffer::next_read`] decides each step.
pub open spec fn spec_served(leftover: Seq<u8>, wants: Seq<nat>) -> Seq<u8>
    decreases wants.len(),
{
    if wants.len() == 0 {
        Seq::empty()
    } else {
        let n = vstd::math::min(wants[0] as int, leftover.len() as int);
        leftover.take(n) + spec_served(leftover.skip(n), wants.skip(1))
    }
}

/// Whatever sizes a sequence of reads asks for, what the buffer serves is,
/// end to end, a prefix of the leftover bytes in their original order — no
/// reordering, no duplication, no loss — and once its length reaches the
/// buffer's, it is the whole leftover.
pub proof fn lemma_session_is_ordered_prefix(leftover: Seq<u8>, wants: Seq<nat>)
    ensures
        spec_served(leftover, wants).len() <= leftover.len(),
        spec_served(leftover, wants) == leftover.take(spec_served(leftover, wants).len() as int),
        spec_served(leftover, wants).len() == leftover.len() ==> spec_served(leftover, wants)
            == leftover,
    decreases wants.len(),
{
    let s = spec_served(leftover, wants);
    if wants.len() == 0 {
        assert(s =~= leftover.take(0));
    } else {
        let n = vstd::math::min(wants[0] as int, leftover.len() as int);
        let rest = spec_served(leftover.skip(n), wants.skip(1));
        lemma_session_is_ordered_prefix(leftover.skip(n), wants.skip(1));
        lemma_reads_keep_order(leftover, n, rest.len() as int);
        assert(s == leftover.take(n + rest.len()));
    }
    if s.len() == leftover.len() {
        assert(leftover.take(leftover.len() as int) =~= leftover);
    }
}

} // verus!
