//! Counting the bytes of a stream against the length that was declared for
//! it.

use vstd::prelude::*;
use crate::{u64_usize, usize_u64};

verus! {

/// Why a run over a stream cannot go on.
#[derive(Debug, Clone, Copy, PartialEq, Eq, Structural)]
pub enum Fault {
    /// The data ended when the count of bytes differed from the length that
    /// the source had declared.
    LengthMismatch { expected: u64, actual: u64 },
    /// The count of bytes would no longer fit in 64 bits.
    CountOverflow,
}

/// What the caller of a run does after a step.
#[derive(Debug, Clone, Copy, PartialEq, Eq, Structural)]
pub enum Step {
    /// The chunk has been processed; the run takes another.
    Continue,
    /// The data has ended, with the length that was declared.
    Finished,
}

/// The declared length of a stream and the count of its bytes so far, as
/// numbers.
pub struct Count {
    pub total: nat,
    pub done: nat,
}

impl Count {
    /// The bytes still to come: none once the count has reached the declared
    /// length.
    pub open spec fn remaining(self) -> nat {
        if self.done <= self.total {
            (self.total - self.done) as nat
        } else {
            0
        }
    }
}

/// The length of the next chunk when `remaining` bytes are left and the buffer
/// holds `capacity`: as much as the buffer takes, or what is left.
pub open spec fn chunk_len(remaining: nat, capacity: nat) -> nat {
    if remaining < capacity {
        remaining
    } else {
        capacity
    }
}

/// The count of bytes after `chunks` chunks of a stream of `total` bytes that
/// is read with a buffer of `capacity` bytes.
pub open spec fn count_after(total: nat, capacity: nat, chunks: nat) -> nat
    decreases chunks,
{
    if chunks == 0 {
        0
    } else {
        let before = count_after(total, capacity, (chunks - 1) as nat);
        before + chunk_len((total - before) as nat, capacity)
    }
}

/// Progress accounting: with a buffer that is not empty the count never
/// passes the length of the stream, it grows with every chunk until it has
/// reached that length, the next chunk is empty exactly when it has, and it
/// has after as many chunks as cover the stream.
pub proof fn progress_accounting(total: nat, capacity: nat, chunks: nat)
    requires
        capacity > 0,
    ensures
        count_after(total, capacity, chunks) <= total,
        count_after(total, capacity, chunks) == chunk_len(total, chunks * capacity),
        chunk_len((total - count_after(total, capacity, chunks)) as nat, capacity) == 0
            <==> count_after(total, capacity, chunks) == total,
        chunks * capacity >= total ==> count_after(total, capacity, chunks) == total,
    decreases chunks,
{
    if chunks > 0 {
        progress_accounting(total, capacity, (chunks - 1) as nat);
        assert(chunks * capacity == (chunks - 1) * capacity + capacity) by (nonlinear_arith);
    } else {
        assert(chunks * capacity == 0) by (nonlinear_arith)
            requires
                chunks == 0,
        ;
    }
}

/// The count of bytes after chunks of the given lengths: their sum.
pub open spec fn count_of(lens: Seq<nat>) -> nat
    decreases lens.len(),
{
    if lens.len() == 0 {
        0
    } else {
        count_of(lens.drop_last()) + lens.last()
    }
}

/// However the chunks fall, a run whose end is in order, which is one whose
/// chunks sum to the declared length, has at no point counted more than that
/// length.
pub proof fn finished_run_never_passed_total(total: nat, lens: Seq<nat>, chunks: int)
    requires
        count_of(lens) == total,
        0 <= chunks <= lens.len(),
    ensures
        count_of(lens.subrange(0, chunks)) <= total,
    decreases lens.len() - chunks,
{
    if chunks < lens.len() {
        finished_run_never_passed_total(total, lens, chunks + 1);
        assert(lens.subrange(0, chunks + 1).drop_last() =~= lens.subrange(0, chunks));
    } else {
        assert(lens.subrange(0, chunks) =~= lens);
    }
}

/// The length of the next chunk of a stream of which `remaining` bytes are left,
/// for a buffer of `capacity` bytes.
pub fn next_chunk_len(remaining: u64, capacity: usize) -> (len: usize)
    ensures
        len == chunk_len(remaining as nat, capacity as nat),
{
    if remaining < usize_u64(capacity) {
        u64_usize(remaining)
    } else {
        capacity
    }
}

/// The count of the bytes of a stream, beside the length declared for it.
#[derive(Debug, Clone, Copy)]
pub struct Progress {
    total: u64,
    done: u64,
}

impl View for Progress {
    type V = Count;

    closed spec fn view(&self) -> Count {
        Count { total: self.total as nat, done: self.done as nat }
    }
}

impl Progress {
    /// The start of a stream of `total` bytes.
    pub fn new(total: u64) -> (progress: Self)
        ensures
            progress@ == (Count { total: total as nat, done: 0 }),
    {
        Progress { total, done: 0 }
    }

    /// The length declared for the stream.
    pub fn total(&self) -> (total: u64)
        ensures
            total == self@.total,
    {
        self.total
    }

    /// The count of bytes so far.
    pub fn done(&self) -> (done: u64)
        ensures
            done == self@.done,
    {
        self.done
    }

    /// The bytes still to come.
    pub fn remaining(&self) -> (remaining: u64)
        ensures
            remaining == self@.remaining(),
    {
        if self.done <= self.total {
            self.total - self.done
        } else {
            0
        }
    }

    /// Adds the length of a chunk to the count. The count is left as it was
    /// where the sum does not fit in 64 bits.
    pub fn advance(&mut self, len: usize) -> (result: Result<(), Fault>)
        ensures
            final(self)@.total == old(self)@.total,
            old(self)@.done + len <= u64::MAX ==> result == Ok::<(), Fault>(())
                && final(self)@.done == old(self)@.done + len,
            old(self)@.done + len > u64::MAX ==> result == Err::<(), Fault>(Fault::CountOverflow)
                && *final(self) == *old(self),
    {
        match self.done.checked_add(usize_u64(len)) {
            Some(sum) => {
                self.done = sum;
                Ok(())
            },
            None => Err(Fault::CountOverflow),
        }
    }

    /// Claims the next chunk of what is still to come, for a buffer of
    /// `capacity` bytes: counts it and returns its length.
    pub fn take(&mut self, capacity: usize) -> (len: usize)
        ensures
            len == chunk_len(old(self)@.remaining(), capacity as nat),
            final(self)@.total == old(self)@.total,
            final(self)@.done == old(self)@.done + len,
    {
        let len = next_chunk_len(self.remaining(), capacity);
        self.done = self.done + usize_u64(len);
        len
    }

    /// Judges the end of the data: it is in order exactly when the count is
    /// the declared length.
    pub fn complete(&self) -> (result: Result<(), Fault>)
        ensures
            self@.done == self@.total ==> result == Ok::<(), Fault>(()),
            self@.done != self@.total ==> (result matches Err(
                Fault::LengthMismatch { expected, actual },
            ) && expected == self@.total && actual == self@.done),
    {
        if self.done == self.total {
            Ok(())
        } else {
            Err(Fault::LengthMismatch { expected: self.total, actual: self.done })
        }
    }
}

} // verus!
