//! Bytes written out in hexadecimal, as the `hex` crate does it.

use vstd::prelude::*;

verus! {

/// The sixteen digits, in the order of their values.
pub const HEX_DIGITS: &'static str = "0123456789abcdef";

/// `data` in lowercase hexadecimal: two digits for each byte, the high half
/// first.
pub open spec fn hex_text(data: Seq<u8>) -> Seq<char> {
    Seq::new(
        2 * data.len(),
        |i: int|
            if i % 2 == 0 {
                HEX_DIGITS@[(data[i / 2] / 16) as int]
            } else {
                HEX_DIGITS@[(data[i / 2] % 16) as int]
            },
    )
}

/// `hex::encode`: the bytes of `data` in lowercase hexadecimal.
#[verifier::external_body]
pub(crate) fn hex_encode(data: &[u8]) -> (text: String)
    ensures
        text@ == hex_text(data@),
{
    hex::encode(data)
}

} // verus!
