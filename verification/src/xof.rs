//! The cSHAKE256 extendable-output function, as the `cshake` crate provides it.
//!
//! Nothing in this module is proved: each function here hands its arguments to
//! the `cshake` crate, and its contract records what that crate does with them.
//! The output of cSHAKE256 is not written out; it is only given a name,
//! [`cshake256_byte`], so that the rest of the library can say which bytes of
//! which output stream a buffer holds.

use vstd::prelude::*;
use cshake::digest::{CustomizedInit, ExtendableOutput, Update, XofReader};

verus! {

/// `cshake::CShake`: a cSHAKE state that is still absorbing its message.
#[verifier::external_type_specification]
#[verifier::external_body]
pub struct ExCShake<const RATE: usize>(cshake::CShake<RATE>);

/// `cshake::CShakeReader`: a cSHAKE state whose message is complete and whose
/// output is being read.
#[verifier::external_type_specification]
#[verifier::external_body]
pub struct ExCShakeReader<const RATE: usize>(cshake::CShakeReader<RATE>);

/// The byte at position `index` of the output of cSHAKE256 for the given
/// customization string and message, with an empty function name.
pub uninterp spec fn cshake256_byte(customization: Seq<u8>, message: Seq<u8>, index: nat) -> u8;

/// The customization string that a hasher was made with.
pub uninterp spec fn hasher_customization(hasher: cshake::CShake256) -> Seq<u8>;

/// The message bytes that a hasher has absorbed so far, in order.
pub uninterp spec fn hasher_message(hasher: cshake::CShake256) -> Seq<u8>;

/// The customization string of the hasher that a reader came from.
pub uninterp spec fn reader_customization(reader: cshake::CShake256Reader) -> Seq<u8>;

/// The whole message of the hasher that a reader came from.
pub uninterp spec fn reader_message(reader: cshake::CShake256Reader) -> Seq<u8>;

/// The number of output bytes that have been read from a reader.
pub uninterp spec fn reader_position(reader: cshake::CShake256Reader) -> nat;

/// `CShake256::new_customized`: a hasher for the given customization string
/// that has absorbed nothing yet.
#[verifier::external_body]
pub(crate) fn hasher_new(customization: &[u8]) -> (hasher: cshake::CShake256)
    ensures
        hasher_customization(hasher) == customization@,
        hasher_message(hasher) == Seq::<u8>::empty(),
{
    cshake::CShake256::new_customized(customization)
}

/// `Update::update` of `CShake256`: appends `data` to the message. The
/// customization string stays. The call does not panic.
#[verifier::external_body]
pub(crate) fn hasher_update(hasher: &mut cshake::CShake256, data: &[u8])
    ensures
        hasher_customization(*final(hasher)) == hasher_customization(*old(hasher)),
        hasher_message(*final(hasher)) == hasher_message(*old(hasher)) + data@,
    no_unwind
{
    hasher.update(data)
}

/// `ExtendableOutput::finalize_xof` of `CShake256`: ends the message and
/// returns a reader that stands at the start of the output for it.
#[verifier::external_body]
pub(crate) fn hasher_finalize(hasher: cshake::CShake256) -> (reader: cshake::CShake256Reader)
    ensures
        reader_customization(reader) == hasher_customization(hasher),
        reader_message(reader) == hasher_message(hasher),
        reader_position(reader) == 0,
{
    hasher.finalize_xof()
}

/// `XofReader::read` of `CShake256Reader`: fills all of `buf` with the output
/// bytes that follow those already read, and moves the reader past them. The
/// call does not panic.
#[verifier::external_body]
pub(crate) fn reader_read(reader: &mut cshake::CShake256Reader, buf: &mut [u8])
    ensures
        reader_customization(*final(reader)) == reader_customization(*old(reader)),
        reader_message(*final(reader)) == reader_message(*old(reader)),
        reader_position(*final(reader)) == reader_position(*old(reader)) + old(buf)@.len(),
        final(buf)@.len() == old(buf)@.len(),
        forall|i: int|
            0 <= i < old(buf)@.len() ==> #[trigger] final(buf)@[i] == cshake256_byte(
                reader_customization(*old(reader)),
                reader_message(*old(reader)),
                (reader_position(*old(reader)) + i) as nat,
            ),
    no_unwind
{
    reader.read(buf)
}

} // verus!
