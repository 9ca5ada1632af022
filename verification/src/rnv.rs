//! The verification mode: a stream that is believed to be the keystream of a
//! key is held against that keystream, and every position at which the two
//! differ is reported.

use vstd::prelude::*;
use vstd::slice::*;
use crate::keystream::{apply_keystream_at, keystream, keystream_byte, KeystreamCipher};
use crate::progress::{next_chunk_len, Count, Fault, Progress, Step};
use crate::usize_u64;

verus! {

/// The positions at which `data`, taken to stand at position `from` of a
/// stream, differs from the keystream of `key`, in rising order.
pub open spec fn mismatches(key: Seq<u8>, from: nat, data: Seq<u8>) -> Seq<nat>
    decreases data.len(),
{
    if data.len() == 0 {
        Seq::empty()
    } else {
        let before = mismatches(key, from, data.drop_last());
        let at = (from + data.len() - 1) as nat;
        if data.last() != keystream_byte(key, at) {
            before.push(at)
        } else {
            before
        }
    }
}

/// Reported offsets as positions.
pub open spec fn positions(offsets: Seq<u64>) -> Seq<nat> {
    offsets.map_values(|offset: u64| offset as nat)
}

/// The mismatches of two adjacent pieces of a stream are those of the first
/// followed by those of the second, so chunking has no part in what is
/// reported.
pub proof fn mismatches_split(key: Seq<u8>, from: nat, head: Seq<u8>, tail: Seq<u8>)
    ensures
        mismatches(key, from, head + tail) == mismatches(key, from, head) + mismatches(
            key,
            from + head.len(),
            tail,
        ),
    decreases tail.len(),
{
    if tail.len() > 0 {
        mismatches_split(key, from, head, tail.drop_last());
        assert((head + tail).drop_last() =~= head + tail.drop_last());
    }
}

/// What is reported is exact: a position is among the mismatches if and only
/// if it lies in the data and the byte there is not the keystream byte, and
/// the positions rise.
pub proof fn mismatches_are_exact(key: Seq<u8>, from: nat, data: Seq<u8>)
    ensures
        forall|p: nat|
            #![trigger mismatches(key, from, data).contains(p)]
            mismatches(key, from, data).contains(p) <==> (from <= p < from + data.len() && data[p
                - from] != keystream_byte(key, p)),
        forall|i: int, j: int|
            #![trigger mismatches(key, from, data)[i], mismatches(key, from, data)[j]]
            0 <= i < j < mismatches(key, from, data).len() ==> mismatches(key, from, data)[i]
                < mismatches(key, from, data)[j],
        mismatches(key, from, data).len() <= data.len(),
    decreases data.len(),
{
    if data.len() > 0 {
        let found = mismatches(key, from, data);
        let shorter = data.drop_last();
        let before = mismatches(key, from, shorter);
        let at = (from + data.len() - 1) as nat;
        mismatches_are_exact(key, from, shorter);
        assert forall|p: nat| #![trigger found.contains(p)]
            found.contains(p) <==> (from <= p < from + data.len() && data[p - from]
                != keystream_byte(key, p)) by {
            if before.contains(p) {
                let i = choose|i: int| 0 <= i < before.len() && before[i] == p;
                assert(found[i] == p);
            }
            if found.contains(p) && p != at {
                let i = choose|i: int| 0 <= i < found.len() && found[i] == p;
                assert(before[i] == p);
            }
            if p == at && data.last() != keystream_byte(key, at) {
                assert(found[before.len() as int] == at);
            }
        }
        assert forall|i: int, j: int| 0 <= i < j < found.len() implies found[i] < found[j] by {
            if j == before.len() {
                assert(before.contains(before[i]));
            }
        }
    }
}

/// The keystream has no mismatch with itself: a stream that the generator
/// mode made passes the verification mode under the same key.
pub proof fn keystream_has_no_mismatches(key: Seq<u8>, from: nat, len: nat)
    ensures
        mismatches(key, from, keystream(key, from, len)) == Seq::<nat>::empty(),
    decreases len,
{
    if len > 0 {
        keystream_has_no_mismatches(key, from, (len - 1) as nat);
        assert(keystream(key, from, len).drop_last() =~= keystream(key, from, (len - 1) as nat));
    }
}

/// Nothing is reported exactly for the keystream itself.
pub proof fn no_mismatches_means_keystream(key: Seq<u8>, from: nat, data: Seq<u8>)
    ensures
        mismatches(key, from, data).len() == 0 <==> data == keystream(key, from, data.len()),
{
    mismatches_are_exact(key, from, data);
    let found = mismatches(key, from, data);
    if data == keystream(key, from, data.len()) {
        keystream_has_no_mismatches(key, from, data.len());
    }
    if found.len() == 0 {
        assert forall|i: int| 0 <= i < data.len() implies data[i] == keystream(
            key,
            from,
            data.len(),
        )[i] by {
            let p = (from + i) as nat;
            assert(!found.contains(p));
        }
        assert(data =~= keystream(key, from, data.len()));
    }
}

/// One run of the verification mode over a stream whose length was declared
/// at the start.
pub struct Rnv {
    cipher: KeystreamCipher,
    progress: Progress,
}

impl Rnv {
    /// The run is in order: the cipher stands where the count stands.
    pub closed spec fn wf(self) -> bool {
        self.cipher.position() == self.progress@.done
    }

    /// The key of the run.
    pub closed spec fn key(self) -> Seq<u8> {
        self.cipher.key()
    }

    /// The declared length of the stream and the count of its bytes so far.
    pub closed spec fn count(self) -> Count {
        self.progress@
    }

    /// A run under `key` over a stream of `total` bytes.
    pub fn new(key: &[u8], total: u64) -> (run: Self)
        ensures
            run.wf(),
            run.key() == key@,
            run.count() == (Count { total: total as nat, done: 0 }),
    {
        Rnv { cipher: KeystreamCipher::new(key), progress: Progress::new(total) }
    }

    /// The count of bytes that have been checked.
    pub fn done(&self) -> (done: u64)
        ensures
            done == self.count().done,
    {
        self.progress.done()
    }

    /// Takes what one read of the source gave. An empty `chunk` is the end of
    /// the data: the run is finished if the count is the declared length, and
    /// at fault if not. Any other chunk is counted and combined in place with
    /// the keystream, which leaves a zero wherever the stream agrees with it,
    /// and the position in the stream of every byte that is not zero is added
    /// to `found`, in rising order. Where the count would not fit in 64 bits,
    /// nothing is changed.
    pub fn step(&mut self, chunk: &mut [u8], found: &mut Vec<u64>) -> (result: Result<Step, Fault>)
        requires
            old(self).wf(),
        ensures
            final(self).wf(),
            final(self).key() == old(self).key(),
            final(self).count().total == old(self).count().total,
            old(chunk)@.len() == 0 ==> {
                &&& *final(self) == *old(self)
                &&& final(chunk)@ == old(chunk)@
                &&& final(found)@ == old(found)@
                &&& old(self).count().done == old(self).count().total ==> result == Ok::<
                    Step,
                    Fault,
                >(Step::Finished)
                &&& old(self).count().done != old(self).count().total ==> (result matches Err(
                    Fault::LengthMismatch { expected, actual },
                ) && expected == old(self).count().total && actual == old(self).count().done)
            },
            old(chunk)@.len() > 0 && old(self).count().done + old(chunk)@.len() > u64::MAX ==> {
                &&& *final(self) == *old(self)
                &&& final(chunk)@ == old(chunk)@
                &&& final(found)@ == old(found)@
                &&& result == Err::<Step, Fault>(Fault::CountOverflow)
            },
            old(chunk)@.len() > 0 && old(self).count().done + old(chunk)@.len() <= u64::MAX ==> {
                &&& result == Ok::<Step, Fault>(Step::Continue)
                &&& final(self).count().done == old(self).count().done + old(chunk)@.len()
                &&& final(chunk)@ == apply_keystream_at(
                    old(self).key(),
                    old(self).count().done,
                    old(chunk)@,
                )
                &&& positions(final(found)@) == positions(old(found)@) + mismatches(
                    old(self).key(),
                    old(self).count().done,
                    old(chunk)@,
                )
            },
    {
        let len = chunk.len();
        if len == 0 {
            return match self.progress.complete() {
                Ok(()) => Ok(Step::Finished),
                Err(fault) => Err(fault),
            };
        }
        let base = self.progress.done();
        match self.progress.advance(len) {
            Ok(()) => {},
            Err(fault) => {
                return Err(fault);
            },
        }
        self.cipher.apply(chunk);
        let ghost key = old(self).key();
        let ghost data = old(chunk)@;
        let mut i: usize = 0;
        while i < len
            invariant
                i <= len,
                len == data.len(),
                base + len <= u64::MAX,
                chunk@ == apply_keystream_at(key, base as nat, data),
                positions(found@) == positions(old(found)@) + mismatches(
                    key,
                    base as nat,
                    data.subrange(0, i as int),
                ),
            decreases len - i,
        {
            let ghost seen = data.subrange(0, i as int);
            let ghost at = (base + i) as nat;
            proof {
                let d = data[i as int];
                let k = keystream_byte(key, at);
                assert((d ^ k != 0u8) <==> d != k) by (bit_vector);
                assert(data.subrange(0, i + 1).drop_last() =~= seen);
            }
            if chunk[i] != 0 {
                found.push(base + usize_u64(i));
                assert(positions(old(found)@) + mismatches(key, base as nat, seen).push(at)
                    =~= (positions(old(found)@) + mismatches(key, base as nat, seen)).push(at));
            }
            i += 1;
        }
        assert(data.subrange(0, len as int) =~= data);
        Ok(Step::Continue)
    }
}

/// Holds a whole stream that lies in memory against the keystream of `key`,
/// in chunks of at most `capacity` bytes, and returns the position of every
/// byte that differs, in rising order. The capacity has no part in the
/// result.
pub fn rnv_bytes(key: &[u8], data: &[u8], capacity: usize) -> (found: Vec<u64>)
    requires
        capacity > 0,
    ensures
        positions(found@) == mismatches(key@, 0, data@),
{
    let total = data.len();
    let mut run = Rnv::new(key, usize_u64(total));
    let mut found: Vec<u64> = Vec::new();
    let mut done: usize = 0;
    loop
        invariant_except_break
            done <= total,
        invariant
            total == data@.len(),
            capacity > 0,
            run.wf(),
            run.key() == key@,
            run.count() == (Count { total: total as nat, done: done as nat }),
            positions(found@) == mismatches(key@, 0, data@.subrange(0, done as int)),
        ensures
            done == total,
        decreases total - done,
    {
        let len = next_chunk_len(usize_u64(total - done), capacity);
        let mut chunk = slice_to_vec(slice_subrange(data, done, done + len));
        let ghost before = data@.subrange(0, done as int);
        let ghost piece = data@.subrange(done as int, done + len);
        match run.step(chunk.as_mut_slice(), &mut found) {
            Ok(Step::Continue) => {
                proof {
                    mismatches_split(key@, 0, before, piece);
                    assert(before + piece =~= data@.subrange(0, done + len));
                }
                done += len;
            },
            _ => {
                break ;
            },
        }
    }
    assert(data@.subrange(0, total as int) =~= data@);
    found
}

} // verus!
