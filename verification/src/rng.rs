//! The generator mode: the keystream of a key, written out as it is up to a
//! length that was asked for.

use vstd::prelude::*;
use vstd::slice::*;
use crate::keystream::{keystream, keystream_split, KeystreamCipher};
use crate::progress::{chunk_len, Count, Progress};
use crate::usize_u64;

verus! {

/// One run of the generator mode.
pub struct Rng {
    cipher: KeystreamCipher,
    progress: Progress,
}

impl Rng {
    /// The run is in order: the cipher stands where the count stands, and the
    /// count has not passed the length asked for.
    pub closed spec fn wf(self) -> bool {
        &&& self.cipher.position() == self.progress@.done
        &&& self.progress@.done <= self.progress@.total
    }

    /// The key of the run.
    pub closed spec fn key(self) -> Seq<u8> {
        self.cipher.key()
    }

    /// The length asked for and the count of the bytes generated so far.
    pub closed spec fn count(self) -> Count {
        self.progress@
    }

    /// A run under `key` that is to generate `total` bytes.
    pub fn new(key: &[u8], total: u64) -> (run: Self)
        ensures
            run.wf(),
            run.key() == key@,
            run.count() == (Count { total: total as nat, done: 0 }),
    {
        Rng { cipher: KeystreamCipher::new(key), progress: Progress::new(total) }
    }

    /// The count of bytes generated so far.
    pub fn done(&self) -> (done: u64)
        ensures
            done == self.count().done,
    {
        self.progress.done()
    }

    /// Generates the next chunk: as many bytes as `buf` takes, or those still
    /// to come if they are fewer. They are the keystream bytes that follow
    /// those generated before and stand at the front of `buf`; the rest of
    /// `buf` stays. Returns their number, which is zero once the length asked
    /// for has been reached.
    pub fn next_chunk(&mut self, buf: &mut [u8]) -> (len: usize)
        requires
            old(self).wf(),
        ensures
            final(self).wf(),
            final(self).key() == old(self).key(),
            final(self).count().total == old(self).count().total,
            final(self).count().done == old(self).count().done + len,
            len == chunk_len(old(self).count().remaining(), old(buf)@.len()),
            final(buf)@ == keystream(old(self).key(), old(self).count().done, len as nat) + old(
                buf,
            )@.subrange(len as int, old(buf)@.len() as int),
    {
        let len = self.progress.take(buf.len());
        let (head, _rest) = buf.split_at_mut(len);
        self.cipher.squeeze(head);
        len
    }
}

/// Generates `len` bytes under `key` in memory, in chunks of at most
/// `capacity` bytes. What comes out is the keystream of the key from its
/// start: the key and the length decide it, the capacity has no part in it.
pub fn rng_bytes(key: &[u8], len: usize, capacity: usize) -> (output: Vec<u8>)
    requires
        capacity > 0,
    ensures
        output@ == keystream(key@, 0, len as nat),
{
    let mut run = Rng::new(key, usize_u64(len));
    let mut output: Vec<u8> = Vec::new();
    let mut buf: Vec<u8> = vec![0u8; if len < capacity { len } else { capacity }];
    loop
        invariant_except_break
            output@.len() <= len,
        invariant
            capacity > 0,
            buf@.len() == chunk_len(len as nat, capacity as nat),
            run.wf(),
            run.key() == key@,
            run.count() == (Count { total: len as nat, done: output@.len() }),
            output@ == keystream(key@, 0, output@.len()),
        ensures
            output@.len() == len,
        decreases len - output@.len(),
    {
        let ghost before = output@;
        let n = run.next_chunk(buf.as_mut_slice());
        if n == 0 {
            break ;
        }
        output.extend_from_slice(slice_subrange(buf.as_slice(), 0, n));
        proof {
            keystream_split(key@, 0, before.len(), n as nat);
        }
    }
    output
}

} // verus!
