//! Byte sources held in memory, and the clock that times their reads.

use vstd::prelude::*;
use std::time::{Duration, Instant};

verus! {

#[verifier::external_type_specification]
#[verifier::external_body]
pub struct ExInstant(Instant);

/// Relies on std's `Instant::now`: the current instant of a monotonic clock.
#[verifier::external_body]
pub(crate) fn timer_start() -> Instant {
    Instant::now()
}

/// Relies on std's `Instant::elapsed`: the time passed since `t`.
#[verifier::external_body]
pub(crate) fn timer_elapsed(t: &Instant) -> Duration {
    t.elapsed()
}

/// Relies on std's `Duration::as_nanos`: the whole length in nanoseconds.
#[verifier::external_body]
pub(crate) fn duration_nanos(d: &Duration) -> u128 {
    d.as_nanos()
}

pub open spec fn min_nat(a: nat, b: nat) -> nat {
    if a <= b { a } else { b }
}

/// What a bounded read at `pos` returns: at most `limit` bytes, fewer only
/// where the content ends.
pub open spec fn pull(content: Seq<u8>, pos: nat, limit: nat) -> Seq<u8> {
    content.subrange(pos as int, min_nat(pos + limit, content.len()) as int)
}

/// An owned in-memory buffer with a read position.
pub struct MemorySource {
    data: Vec<u8>,
    pos: usize,
}

impl MemorySource {
    /// The bytes of the buffer.
    pub closed spec fn content(&self) -> Seq<u8> {
        self.data@
    }

    /// Where the next read starts.
    pub closed spec fn position(&self) -> nat {
        self.pos as nat
    }

    pub closed spec fn wf(&self) -> bool {
        self.pos <= self.data.len()
    }

    /// A source over `data`, positioned at its first byte.
    pub fn new(data: Vec<u8>) -> (r: MemorySource)
        ensures
            r.wf(),
            r.content() == data@,
            r.position() == 0,
    {
        MemorySource { data, pos: 0 }
    }

    /// A source over a copy of `bytes`, positioned at its first byte.
    pub fn copied(bytes: &[u8]) -> (r: MemorySource)
        ensures
            r.wf(),
            r.content() == bytes@,
            r.position() == 0,
    {
        let mut data: Vec<u8> = Vec::with_capacity(bytes.len());
        let mut i: usize = 0;
        while i < bytes.len()
            invariant
                i <= bytes@.len(),
                data@ == bytes@.subrange(0, i as int),
            decreases bytes@.len() - i,
        {
            data.push(bytes[i]);
            i = i + 1;
            assert(data@ =~= bytes@.subrange(0, i as int));
        }
        assert(data@ =~= bytes@);
        MemorySource::new(data)
    }

    /// The number of bytes in the buffer.
    pub fn len(&self) -> (r: u64)
        ensures
            r == self.content().len(),
    {
        self.data.len() as u64
    }

    /// Moves the read position to `offset`, or to the end where the buffer
    /// is shorter.
    pub fn seek(&mut self, offset: u64)
        requires
            old(self).wf(),
        ensures
            final(self).wf(),
            final(self).position() <= final(self).content().len(),
            final(self).content() == old(self).content(),
            final(self).position() == min_nat(offset as nat, old(self).content().len()),
    {
        if offset >= self.data.len() as u64 {
            self.pos = self.data.len();
        } else {
            self.pos = offset as usize;
        }
    }

    /// Reads at most `max` bytes from the read position on, and moves past them.
    pub fn read_up_to(&mut self, max: u64) -> (r: Vec<u8>)
        requires
            old(self).wf(),
        ensures
            final(self).wf(),
            final(self).position() <= final(self).content().len(),
            final(self).content() == old(self).content(),
            r@ == pull(old(self).content(), old(self).position(), max as nat),
            final(self).position() == old(self).position() + r@.len(),
    {
        let remaining = self.data.len() - self.pos;
        let take: usize = if (remaining as u64) <= max {
            remaining
        } else {
            max as usize
        };
        let end = self.pos + take;
        let mut out: Vec<u8> = Vec::with_capacity(take);
        let mut i = self.pos;
        while i < end
            invariant
                self.wf(),
                self.pos <= i <= end,
                end <= self.data.len(),
                out@ == self.data@.subrange(self.pos as int, i as int),
            decreases end - i,
        {
            out.push(self.data[i]);
            i = i + 1;
            assert(out@ =~= self.data@.subrange(self.pos as int, i as int));
        }
        self.pos = end;
        assert(out@ =~= pull(self.data@, (end - take) as nat, max as nat));
        out
    }
}

/// What a run of bounded reads from `pos` on yields, the i-th read taking
/// at most `limits[i]` bytes.
pub open spec fn run_output(content: Seq<u8>, pos: nat, limits: Seq<nat>) -> Seq<u8>
    decreases limits.len(),
{
    if limits.len() == 0 {
        Seq::empty()
    } else {
        let chunk = pull(content, pos, limits[0]);
        chunk + run_output(content, pos + chunk.len(), limits.drop_first())
    }
}

/// Every read takes at least one byte while bytes remain, so a run with as
/// many reads as bytes remain yields the rest of the content exactly once.
pub proof fn lemma_run_covers_rest(content: Seq<u8>, pos: nat, limits: Seq<nat>)
    requires
        pos <= content.len(),
        forall|i: int| 0 <= i < limits.len() ==> limits[i] >= 1,
        limits.len() >= content.len() - pos,
    ensures
        run_output(content, pos, limits) == content.subrange(pos as int, content.len() as int),
    decreases limits.len(),
{
    if limits.len() == 0 {
        assert(content.subrange(pos as int, content.len() as int) =~= Seq::<u8>::empty());
    } else {
        let chunk = pull(content, pos, limits[0]);
        let next = pos + chunk.len();
        let rest = limits.drop_first();
        assert forall|i: int| 0 <= i < rest.len() implies rest[i] >= 1 by {
            assert(rest[i] == limits[i + 1]);
        }
        lemma_run_covers_rest(content, next, rest);
        assert(chunk + content.subrange(next as int, content.len() as int) =~= content.subrange(
            pos as int,
            content.len() as int,
        ));
    }
}

} // verus!
