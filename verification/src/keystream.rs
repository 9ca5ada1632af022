//! The keystream of a key, and the cipher that combines it with data.
//!
//! The keystream of a key is the output of cSHAKE256 for the cipher's
//! customization string and the key as message. Its byte at a position depends
//! on the key and the position alone, so how a stream is cut into chunks has
//! no effect on what is combined with which byte.

use vstd::prelude::*;
use crate::progress::chunk_len;
use crate::tags::{cipher_tag, CIPHER_CUSTOM};
use crate::xof::{
    cshake256_byte, hasher_finalize, hasher_new, hasher_update, reader_customization,
    reader_message, reader_position, reader_read,
};

verus! {

/// The keystream byte of `key` at position `index`.
pub open spec fn keystream_byte(key: Seq<u8>, index: nat) -> u8 {
    cshake256_byte(cipher_tag(), key, index)
}

/// The `len` keystream bytes of `key` that start at position `from`.
pub open spec fn keystream(key: Seq<u8>, from: nat, len: nat) -> Seq<u8> {
    Seq::new(len, |i: int| keystream_byte(key, (from + i) as nat))
}

/// `data` with each byte combined by exclusive-or with the byte of `pad` at the
/// same index.
pub open spec fn xor_bytes(data: Seq<u8>, pad: Seq<u8>) -> Seq<u8>
    recommends
        pad.len() >= data.len(),
{
    Seq::new(data.len(), |i: int| data[i] ^ pad[i])
}

/// `data`, taken to stand at position `from` of a stream, combined with the
/// keystream of `key` at the same positions.
pub open spec fn apply_keystream_at(key: Seq<u8>, from: nat, data: Seq<u8>) -> Seq<u8> {
    xor_bytes(data, keystream(key, from, data.len()))
}

/// A whole stream combined with the keystream of `key`: the ciphertext of a
/// plaintext, and the plaintext of a ciphertext.
pub open spec fn apply_keystream(key: Seq<u8>, data: Seq<u8>) -> Seq<u8> {
    apply_keystream_at(key, 0, data)
}

/// What comes out when `data` is combined with the keystream chunk by chunk,
/// each chunk as long as `capacity` allows, the first at position `from`.
pub open spec fn apply_in_chunks(key: Seq<u8>, from: nat, data: Seq<u8>, capacity: nat) -> Seq<u8>
    decreases data.len(),
{
    if capacity == 0 || data.len() == 0 {
        Seq::empty()
    } else {
        let n = chunk_len(data.len(), capacity);
        apply_keystream_at(key, from, data.subrange(0, n as int)) + apply_in_chunks(
            key,
            from + n,
            data.subrange(n as int, data.len() as int),
            capacity,
        )
    }
}

/// Reading the keystream in two parts gives what reading it at once gives.
pub proof fn keystream_split(key: Seq<u8>, from: nat, first: nat, second: nat)
    ensures
        keystream(key, from, first + second) == keystream(key, from, first) + keystream(
            key,
            from + first,
            second,
        ),
{
}

/// Combining two adjacent pieces of a stream with the keystream one after the
/// other gives what combining them as one piece gives.
pub proof fn apply_keystream_split(key: Seq<u8>, from: nat, head: Seq<u8>, tail: Seq<u8>)
    ensures
        apply_keystream_at(key, from, head + tail) == apply_keystream_at(key, from, head)
            + apply_keystream_at(key, from + head.len(), tail),
{
}

/// Combining data with the keystream twice at the same position gives the
/// data back.
pub proof fn apply_keystream_twice(key: Seq<u8>, from: nat, data: Seq<u8>)
    ensures
        apply_keystream_at(key, from, apply_keystream_at(key, from, data)) == data,
{
    let once = apply_keystream_at(key, from, data);
    let twice = apply_keystream_at(key, from, once);
    assert forall|i: int| 0 <= i < data.len() implies twice[i] == data[i] by {
        let d = data[i];
        let k = keystream_byte(key, (from + i) as nat);
        assert((d ^ k) ^ k == d) by (bit_vector);
    }
}

/// Data that is the keystream itself combines with the keystream to zeros.
pub proof fn apply_keystream_to_itself(key: Seq<u8>, from: nat, len: nat)
    ensures
        apply_keystream_at(key, from, keystream(key, from, len)) == Seq::new(len, |i: int| 0u8),
{
    let out = apply_keystream_at(key, from, keystream(key, from, len));
    assert forall|i: int| 0 <= i < len implies out[i] == 0u8 by {
        let k = keystream_byte(key, (from + i) as nat);
        assert(k ^ k == 0u8) by (bit_vector);
    }
}

/// Zeros combine with the keystream to the keystream itself.
pub proof fn apply_keystream_to_zeros(key: Seq<u8>, from: nat, len: nat)
    ensures
        apply_keystream_at(key, from, Seq::new(len, |i: int| 0u8)) == keystream(key, from, len),
{
    let out = apply_keystream_at(key, from, Seq::new(len, |i: int| 0u8));
    assert forall|i: int| 0 <= i < len implies out[i] == keystream(key, from, len)[i] by {
        let k = keystream_byte(key, (from + i) as nat);
        assert(0u8 ^ k == k) by (bit_vector);
    }
}

/// Cutting a stream into chunks changes nothing: whatever the capacity, the
/// chunks together come out as the stream combined in one piece.
pub proof fn chunks_make_the_whole(key: Seq<u8>, from: nat, data: Seq<u8>, capacity: nat)
    requires
        capacity > 0,
    ensures
        apply_in_chunks(key, from, data, capacity) == apply_keystream_at(key, from, data),
    decreases data.len(),
{
    if data.len() > 0 {
        let n = chunk_len(data.len(), capacity);
        let head = data.subrange(0, n as int);
        let tail = data.subrange(n as int, data.len() as int);
        chunks_make_the_whole(key, from + n, tail, capacity);
        apply_keystream_split(key, from, head, tail);
    }
}

/// Chunk-size independence: two capacities give the same ciphertext.
pub proof fn chunk_size_independence(key: Seq<u8>, data: Seq<u8>, first: nat, second: nat)
    requires
        first > 0,
        second > 0,
    ensures
        apply_in_chunks(key, 0, data, first) == apply_in_chunks(key, 0, data, second),
{
    chunks_make_the_whole(key, 0, data, first);
    chunks_make_the_whole(key, 0, data, second);
}

/// Round trip: a stream that went through the cipher twice under one key is
/// the stream again, whatever the capacity was in either pass.
pub proof fn round_trip(key: Seq<u8>, data: Seq<u8>, first: nat, second: nat)
    requires
        first > 0,
        second > 0,
    ensures
        apply_in_chunks(key, 0, apply_in_chunks(key, 0, data, first), second) == data,
        apply_keystream(key, apply_keystream(key, data)) == data,
{
    chunks_make_the_whole(key, 0, data, first);
    chunks_make_the_whole(key, 0, apply_keystream_at(key, 0, data), second);
    apply_keystream_twice(key, 0, data);
}

/// The number of keystream bytes that the cipher takes at a time when it
/// combines them with data.
pub const BLOCK_LEN: usize = 4096;

/// A stream cipher over one key: it hands out the keystream of the key from
/// position zero on, each byte once.
pub struct KeystreamCipher {
    reader: cshake::CShake256Reader,
}

impl KeystreamCipher {
    #[verifier::type_invariant]
    spec fn keyed_for_cipher(self) -> bool {
        reader_customization(self.reader) == cipher_tag()
    }

    /// The key that the cipher was made with.
    pub closed spec fn key(self) -> Seq<u8> {
        reader_message(self.reader)
    }

    /// The number of keystream bytes handed out so far.
    pub closed spec fn position(self) -> nat {
        reader_position(self.reader)
    }

    /// A cipher for `key`, at the start of its keystream.
    pub fn new(key: &[u8]) -> (cipher: Self)
        ensures
            cipher.key() == key@,
            cipher.position() == 0,
    {
        let mut hasher = hasher_new(CIPHER_CUSTOM.as_bytes());
        hasher_update(&mut hasher, key);
        let reader = hasher_finalize(hasher);
        KeystreamCipher { reader }
    }

    /// Fills `buf` with the keystream bytes that follow those handed out
    /// before.
    pub fn squeeze(&mut self, buf: &mut [u8])
        ensures
            final(buf)@ == keystream(old(self).key(), old(self).position(), old(buf)@.len()),
            final(self).key() == old(self).key(),
            final(self).position() == old(self).position() + old(buf)@.len(),
    {
        proof {
            use_type_invariant(&*self);
        }
        reader_read(&mut self.reader, buf);
    }

    /// Combines `buf` in place with the keystream bytes that follow those
    /// handed out before.
    pub fn apply(&mut self, buf: &mut [u8])
        ensures
            final(buf)@ == apply_keystream_at(old(self).key(), old(self).position(), old(buf)@),
            final(self).key() == old(self).key(),
            final(self).position() == old(self).position() + old(buf)@.len(),
    {
        let n = buf.len();
        let ghost key = old(self).key();
        let ghost start = old(self).position();
        let mut pad: Vec<u8> = vec![0u8; BLOCK_LEN];
        let mut done: usize = 0;
        while done < n
            invariant
                done <= n,
                n == buf@.len(),
                n == old(buf)@.len(),
                pad@.len() == BLOCK_LEN,
                self.key() == key,
                self.position() == start + done,
                forall|j: int|
                    0 <= j < done ==> #[trigger] buf@[j] == old(buf)@[j] ^ keystream_byte(
                        key,
                        (start + j) as nat,
                    ),
                forall|j: int| done <= j < n ==> #[trigger] buf@[j] == old(buf)@[j],
            decreases n - done,
        {
            let len = if n - done < BLOCK_LEN {
                n - done
            } else {
                BLOCK_LEN
            };
            let (head, _rest) = pad.as_mut_slice().split_at_mut(len);
            self.squeeze(head);
            let mut i: usize = 0;
            while i < len
                invariant
                    i <= len,
                    done + len <= n,
                    n == buf@.len(),
                    n == old(buf)@.len(),
                    len <= pad@.len(),
                    forall|j: int|
                        0 <= j < len ==> #[trigger] pad@[j] == keystream_byte(
                            key,
                            (start + done + j) as nat,
                        ),
                    forall|j: int|
                        0 <= j < done + i ==> #[trigger] buf@[j] == old(buf)@[j] ^ keystream_byte(
                            key,
                            (start + j) as nat,
                        ),
                    forall|j: int| done + i <= j < n ==> #[trigger] buf@[j] == old(buf)@[j],
                decreases len - i,
            {
                buf[done + i] = buf[done + i] ^ pad[i];
                i += 1;
            }
            done += len;
        }
    }
}

} // verus!
