//! Digests: cSHAKE256 under the digests' customization string, with no key.

use vstd::prelude::*;
use crate::tags::{hash_tag, HASH_CUSTOM};
use crate::xof::{
    cshake256_byte, hasher_customization, hasher_finalize, hasher_message, hasher_new,
    hasher_update, reader_read,
};

verus! {

/// The length in bytes of the digests that the modes report.
pub const DIGEST_LEN: usize = 32;

/// The digest of `data` in `len` bytes. It depends on the bytes of `data` and
/// their order, not on how they were delivered.
pub open spec fn digest_of(data: Seq<u8>, len: nat) -> Seq<u8> {
    Seq::new(len, |i: int| cshake256_byte(hash_tag(), data, i as nat))
}

/// Takes in a byte stream piece by piece and gives its digest at the end.
pub struct DigestAccumulator {
    hasher: cshake::CShake256,
}

impl DigestAccumulator {
    #[verifier::type_invariant]
    spec fn made_for_digests(self) -> bool {
        hasher_customization(self.hasher) == hash_tag()
    }

    /// All the bytes absorbed so far, in the order in which they came.
    pub closed spec fn absorbed(self) -> Seq<u8> {
        hasher_message(self.hasher)
    }

    /// An accumulator that has absorbed nothing.
    pub fn new() -> (acc: Self)
        ensures
            acc.absorbed() == Seq::<u8>::empty(),
    {
        DigestAccumulator { hasher: hasher_new(HASH_CUSTOM.as_bytes()) }
    }

    /// Appends `buf` to what has been absorbed.
    pub fn absorb(&mut self, buf: &[u8])
        ensures
            final(self).absorbed() == old(self).absorbed() + buf@,
    {
        proof {
            use_type_invariant(&*self);
        }
        hasher_update(&mut self.hasher, buf);
    }

    /// Ends the stream and returns its digest in `N` bytes.
    pub fn finalize<const N: usize>(self) -> (digest: [u8; N])
        ensures
            digest@ == digest_of(self.absorbed(), N as nat),
    {
        proof {
            use_type_invariant(&self);
        }
        let mut reader = hasher_finalize(self.hasher);
        let mut digest = [0u8; N];
        reader_read(&mut reader, &mut digest);
        digest
    }
}

} // verus!
