//! The customization strings that keep the cipher's keystream and the digests
//! apart.

use vstd::prelude::*;
use vstd::string::*;

verus! {

/// The customization string of the keystream.
pub const CIPHER_CUSTOM: &'static str = "__shakenc__file-stream-cipher";

/// The customization string of the digests.
pub const HASH_CUSTOM: &'static str = "__shakenc__file-hash";

/// The bytes of [`CIPHER_CUSTOM`].
pub open spec fn cipher_tag() -> Seq<u8> {
    CIPHER_CUSTOM.spec_bytes()
}

/// The bytes of [`HASH_CUSTOM`].
pub open spec fn hash_tag() -> Seq<u8> {
    HASH_CUSTOM.spec_bytes()
}

/// The two customization strings differ, so the keystream and the digests are
/// outputs of cSHAKE256 under different customizations.
pub proof fn tags_are_distinct()
    ensures
        cipher_tag() != hash_tag(),
        cipher_tag().len() == 29,
        hash_tag().len() == 20,
{
    reveal_strlit("__shakenc__file-stream-cipher");
    reveal_strlit("__shakenc__file-hash");
    is_ascii_spec_bytes(CIPHER_CUSTOM);
    is_ascii_spec_bytes(HASH_CUSTOM);
}

} // verus!
