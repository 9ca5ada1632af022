//! The cipher mode: a stream goes through the cipher chunk by chunk, with
//! digests of both sides where they are wanted, and its length is held
//! against the length that was declared for it.

use vstd::prelude::*;
use vstd::slice::*;
use crate::context::{digest_bytes, digest_of_seen, seen_after, Context, HashResult};
use crate::digest::{digest_of, DIGEST_LEN};
use crate::keystream::{apply_keystream, apply_keystream_at, apply_keystream_split};
use crate::progress::{next_chunk_len, Count, Fault, Progress, Step};
use crate::usize_u64;

verus! {

/// One run of the cipher mode over a stream whose length was declared at the
/// start.
pub struct Crypt {
    ctx: Context,
    progress: Progress,
}

impl Crypt {
    /// The run is in order: the cipher stands where the count stands.
    pub closed spec fn wf(self) -> bool {
        self.ctx.position() == self.progress@.done
    }

    /// The key of the run.
    pub closed spec fn key(self) -> Seq<u8> {
        self.ctx.key()
    }

    /// The declared length of the stream and the count of its bytes so far.
    pub closed spec fn count(self) -> Count {
        self.progress@
    }

    /// What the digest of the input has seen, if the run keeps one.
    pub closed spec fn input_seen(self) -> Option<Seq<u8>> {
        self.ctx.input_seen()
    }

    /// What the digest of the output has seen, if the run keeps one.
    pub closed spec fn output_seen(self) -> Option<Seq<u8>> {
        self.ctx.output_seen()
    }

    /// A run under `key` over a stream of `total` bytes, with a digest of the
    /// input if `ihash` is set and one of the output if `ohash` is set.
    pub fn new(key: &[u8], total: u64, ihash: bool, ohash: bool) -> (run: Self)
        ensures
            run.wf(),
            run.key() == key@,
            run.count() == (Count { total: total as nat, done: 0 }),
            run.input_seen() == if ihash {
                Some(Seq::<u8>::empty())
            } else {
                None
            },
            run.output_seen() == if ohash {
                Some(Seq::<u8>::empty())
            } else {
                None
            },
    {
        Crypt { ctx: Context::init(key, ihash, ohash), progress: Progress::new(total) }
    }

    /// The count of bytes that have gone through the run.
    pub fn done(&self) -> (done: u64)
        ensures
            done == self.count().done,
    {
        self.progress.done()
    }

    /// Takes what one read of the source gave. An empty `chunk` is the end of
    /// the data: the run is finished if the count is the declared length, and
    /// at fault if not. Any other chunk is counted and goes through the
    /// engine, which leaves in `chunk` what is to be written out; where the
    /// count would not fit in 64 bits, the chunk and the run stay as they
    /// were.
    pub fn step(&mut self, chunk: &mut [u8]) -> (result: Result<Step, Fault>)
        requires
            old(self).wf(),
        ensures
            final(self).wf(),
            final(self).key() == old(self).key(),
            final(self).count().total == old(self).count().total,
            old(chunk)@.len() == 0 ==> {
                &&& *final(self) == *old(self)
                &&& final(chunk)@ == old(chunk)@
                &&& old(self).count().done == old(self).count().total ==> result == Ok::<
                    Step,
                    Fault,
                >(Step::Finished)
                &&& old(self).count().done != old(self).count().total ==> (result matches Err(
                    Fault::LengthMismatch { expected, actual },
                ) && expected == old(self).count().total && actual == old(self).count().done)
            },
            old(chunk)@.len() > 0 && old(self).count().done + old(chunk)@.len() > u64::MAX ==> {
                &&& *final(self) == *old(self)
                &&& final(chunk)@ == old(chunk)@
                &&& result == Err::<Step, Fault>(Fault::CountOverflow)
            },
            old(chunk)@.len() > 0 && old(self).count().done + old(chunk)@.len() <= u64::MAX ==> {
                &&& result == Ok::<Step, Fault>(Step::Continue)
                &&& final(self).count().done == old(self).count().done + old(chunk)@.len()
                &&& final(chunk)@ == apply_keystream_at(
                    old(self).key(),
                    old(self).count().done,
                    old(chunk)@,
                )
                &&& final(self).input_seen() == seen_after(old(self).input_seen(), old(chunk)@)
                &&& final(self).output_seen() == seen_after(
                    old(self).output_seen(),
                    final(chunk)@,
                )
            },
    {
        if chunk.len() == 0 {
            match self.progress.complete() {
                Ok(()) => Ok(Step::Finished),
                Err(fault) => Err(fault),
            }
        } else {
            match self.progress.advance(chunk.len()) {
                Ok(()) => {
                    self.ctx.next(chunk);
                    Ok(Step::Continue)
                },
                Err(fault) => Err(fault),
            }
        }
    }

    /// Ends the run and returns the digests that it kept.
    pub fn finish(self) -> (result: HashResult<DIGEST_LEN>)
        ensures
            digest_bytes(result.ihash) == digest_of_seen(self.input_seen(), DIGEST_LEN as nat),
            digest_bytes(result.ohash) == digest_of_seen(self.output_seen(), DIGEST_LEN as nat),
    {
        self.ctx.finish()
    }
}

/// Takes a whole stream that lies in memory through the cipher mode, in chunks
/// of at most `capacity` bytes, and returns what comes out with the digests
/// that were asked for. The capacity has no part in the result.
pub fn crypt_bytes(key: &[u8], input: &[u8], capacity: usize, ihash: bool, ohash: bool) -> (result:
    (Vec<u8>, HashResult<DIGEST_LEN>))
    requires
        capacity > 0,
    ensures
        result.0@ == apply_keystream(key@, input@),
        digest_bytes(result.1.ihash) == if ihash {
            Some(digest_of(input@, DIGEST_LEN as nat))
        } else {
            None
        },
        digest_bytes(result.1.ohash) == if ohash {
            Some(digest_of(result.0@, DIGEST_LEN as nat))
        } else {
            None
        },
{
    let total = input.len();
    let mut run = Crypt::new(key, usize_u64(total), ihash, ohash);
    let mut output: Vec<u8> = Vec::new();
    let mut done: usize = 0;
    loop
        invariant_except_break
            done <= total,
        invariant
            total == input@.len(),
            capacity > 0,
            run.wf(),
            run.key() == key@,
            run.count() == (Count { total: total as nat, done: done as nat }),
            output@ == apply_keystream_at(key@, 0, input@.subrange(0, done as int)),
            run.input_seen() == if ihash {
                Some(input@.subrange(0, done as int))
            } else {
                None
            },
            run.output_seen() == if ohash {
                Some(output@)
            } else {
                None
            },
        ensures
            done == total,
        decreases total - done,
    {
        let len = next_chunk_len(usize_u64(total - done), capacity);
        let mut chunk = slice_to_vec(slice_subrange(input, done, done + len));
        let ghost before = input@.subrange(0, done as int);
        let ghost piece = input@.subrange(done as int, done + len);
        match run.step(chunk.as_mut_slice()) {
            Ok(Step::Continue) => {
                proof {
                    apply_keystream_split(key@, 0, before, piece);
                }
                output.append(&mut chunk);
                done += len;
            },
            _ => {
                break ;
            },
        }
    }
    assert(input@.subrange(0, total as int) =~= input@);
    (output, run.finish())
}

} // verus!
