//! Lengths that are given in megabytes.

use vstd::prelude::*;

verus! {

/// The bytes of a megabyte.
pub const MEGABYTE: u64 = 1048576;

/// The capacity of the chunk buffer, in megabytes, where none is chosen.
pub const DEFAULT_BUFFER_MEGABYTES: usize = 16;

/// The length in bytes of a stream of `megabytes` megabytes, if it fits in 64
/// bits.
pub fn stream_len(megabytes: u64) -> (len: Option<u64>)
    ensures
        megabytes * MEGABYTE <= u64::MAX ==> len == Some((megabytes * MEGABYTE) as u64),
        megabytes * MEGABYTE > u64::MAX ==> len.is_none(),
{
    megabytes.checked_mul(MEGABYTE)
}

/// The capacity in bytes of a chunk buffer of `megabytes` megabytes, or of the
/// default size where none is chosen. There is none for a buffer of no
/// megabytes, nor for one whose length the machine cannot hold.
pub fn buffer_len(megabytes: Option<usize>) -> (len: Option<usize>)
    ensures
        megabytes.is_none() ==> len == Some((DEFAULT_BUFFER_MEGABYTES * MEGABYTE) as usize),
        megabytes matches Some(n) ==> {
            &&& 0 < n && n * MEGABYTE <= usize::MAX ==> len == Some((n * MEGABYTE) as usize)
            &&& !(0 < n && n * MEGABYTE <= usize::MAX) ==> len.is_none()
        },
        len matches Some(capacity) ==> capacity > 0,
{
    let chosen = match megabytes {
        Some(n) => n,
        None => DEFAULT_BUFFER_MEGABYTES,
    };
    if chosen == 0 {
        None
    } else {
        chosen.checked_mul(1048576)
    }
}

} // verus!
