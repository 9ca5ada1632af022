//! A stream cipher for byte streams built on the cSHAKE256 extendable-output
//! function.
//!
//! The keystream of a key is the output of cSHAKE256 for the key under the
//! cipher's customization string; a stream is encrypted, and decrypted, by
//! combining it with the keystream byte by byte with exclusive-or. Digests are
//! outputs of cSHAKE256 under a customization string of their own.
//!
//! - [`xof`] is the boundary to the `cshake` crate, [`hex`] that to the `hex`
//!   crate; [`tags`] holds the two customization strings.
//! - [`keystream`] defines the keystream and what applying it means, proves
//!   that chunking has no effect and that applying it twice is the identity,
//!   and holds the cipher; [`digest`] holds the digest accumulator.
//! - [`context`] joins one cipher with up to two digests.
//! - [`progress`] counts a stream against its declared length.
//! - [`crypt`], [`rng`] and [`rnv`] are the three modes, each as a run that
//!   takes a stream chunk by chunk and as a function on a stream in memory.
//! - [`units`] turns megabytes into bytes.
//!
//! Reading and writing files is left to the caller: a run is handed each
//! chunk that was read, and says what is to be done with it.

use vstd::prelude::*;

pub mod context;
pub mod crypt;
pub mod digest;
pub mod hex;
pub mod keystream;
pub mod progress;
pub mod rng;
pub mod rnv;
pub mod tags;
pub mod units;
pub mod xof;

verus! {

/// Converts a 64-bit length to a machine-word length.
pub fn u64_usize(n: u64) -> (r: usize)
    requires
        n <= usize::MAX,
    ensures
        r == n,
{
    n as usize
}

/// Converts a machine-word length to a 64-bit length.
pub fn usize_u64(n: usize) -> (r: u64)
    ensures
        r == n,
{
    n as u64
}

} // verus!
