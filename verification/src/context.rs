//! The engine of the cipher mode: one keystream cipher, and a digest of the
//! stream on either side of it where one is wanted.

use vstd::prelude::*;
use vstd::string::*;
use crate::digest::{digest_of, DigestAccumulator};
use crate::hex::{hex_encode, hex_text};
use crate::keystream::{apply_keystream_at, KeystreamCipher};

verus! {

/// What a digest has seen after `more` came in, where there is a digest.
pub open spec fn seen_after(seen: Option<Seq<u8>>, more: Seq<u8>) -> Option<Seq<u8>> {
    match seen {
        Some(bytes) => Some(bytes + more),
        None => None,
    }
}

/// The digest in `len` bytes of what was seen, where there is a digest.
pub open spec fn digest_of_seen(seen: Option<Seq<u8>>, len: nat) -> Option<Seq<u8>> {
    match seen {
        Some(bytes) => Some(digest_of(bytes, len)),
        None => None,
    }
}

/// The bytes of a digest, where there is one.
pub open spec fn digest_bytes<const N: usize>(digest: Option<[u8; N]>) -> Option<Seq<u8>> {
    match digest {
        Some(bytes) => Some(bytes@),
        None => None,
    }
}

/// One line of a report: the label, the digest in hexadecimal and a line
/// break; nothing where there is no digest.
pub open spec fn report_line(label: Seq<char>, digest: Option<Seq<u8>>) -> Seq<char> {
    match digest {
        Some(bytes) => label + hex_text(bytes) + "\n"@,
        None => Seq::empty(),
    }
}

/// The digests of a run: of the stream as it came in, and of the stream as it
/// went out. Each is there if it was asked for.
#[derive(Debug, Clone, Copy, PartialEq, Eq)]
pub struct HashResult<const N: usize> {
    pub ihash: Option<[u8; N]>,
    pub ohash: Option<[u8; N]>,
}

impl<const N: usize> HashResult<N> {
    /// The report as text: a line for the digest of the input, then a line for
    /// the digest of the output.
    pub open spec fn text(self) -> Seq<char> {
        report_line("input  hash: "@, digest_bytes(self.ihash)) + report_line(
            "output hash: "@,
            digest_bytes(self.ohash),
        )
    }

    /// Writes the report out.
    pub fn to_text(&self) -> (text: String)
        ensures
            text@ == self.text(),
    {
        let mut text = String::new();
        if let Some(digest) = &self.ihash {
            text.append("input  hash: ");
            text.append(hex_encode(digest.as_slice()).as_str());
            text.append("\n");
        }
        if let Some(digest) = &self.ohash {
            text.append("output hash: ");
            text.append(hex_encode(digest.as_slice()).as_str());
            text.append("\n");
        }
        text
    }
}

/// The state of one run of the cipher over a stream.
pub struct Context {
    cipher: KeystreamCipher,
    ihash: Option<DigestAccumulator>,
    ohash: Option<DigestAccumulator>,
}

impl Context {
    /// The key of the run.
    pub closed spec fn key(self) -> Seq<u8> {
        self.cipher.key()
    }

    /// The number of bytes that have gone through the cipher.
    pub closed spec fn position(self) -> nat {
        self.cipher.position()
    }

    /// What the digest of the input has seen, if the run keeps one.
    pub closed spec fn input_seen(self) -> Option<Seq<u8>> {
        match self.ihash {
            Some(acc) => Some(acc.absorbed()),
            None => None,
        }
    }

    /// What the digest of the output has seen, if the run keeps one.
    pub closed spec fn output_seen(self) -> Option<Seq<u8>> {
        match self.ohash {
            Some(acc) => Some(acc.absorbed()),
            None => None,
        }
    }

    /// A run under `key` at the start of its stream, with a digest of the
    /// input if `ihash` is set and one of the output if `ohash` is set.
    pub fn init(key: &[u8], ihash: bool, ohash: bool) -> (ctx: Self)
        ensures
            ctx.key() == key@,
            ctx.position() == 0,
            ctx.input_seen() == if ihash {
                Some(Seq::<u8>::empty())
            } else {
                None
            },
            ctx.output_seen() == if ohash {
                Some(Seq::<u8>::empty())
            } else {
                None
            },
    {
        Context {
            cipher: KeystreamCipher::new(key),
            ihash: if ihash {
                Some(DigestAccumulator::new())
            } else {
                None
            },
            ohash: if ohash {
                Some(DigestAccumulator::new())
            } else {
                None
            },
        }
    }

    /// Takes the next chunk of the stream through the run: the digest of the
    /// input sees it as it came, the cipher combines it in place with the
    /// keystream, and the digest of the output sees what the cipher left.
    pub fn next(&mut self, buf: &mut [u8])
        ensures
            final(buf)@ == apply_keystream_at(old(self).key(), old(self).position(), old(buf)@),
            final(self).key() == old(self).key(),
            final(self).position() == old(self).position() + old(buf)@.len(),
            final(self).input_seen() == seen_after(old(self).input_seen(), old(buf)@),
            final(self).output_seen() == seen_after(old(self).output_seen(), final(buf)@),
    {
        match &mut self.ihash {
            Some(acc) => acc.absorb(buf),
            None => {},
        }
        self.cipher.apply(buf);
        match &mut self.ohash {
            Some(acc) => acc.absorb(buf),
            None => {},
        }
    }

    /// Ends the run and returns the digests that it kept, each in `N` bytes.
    pub fn finish<const N: usize>(self) -> (result: HashResult<N>)
        ensures
            digest_bytes(result.ihash) == digest_of_seen(self.input_seen(), N as nat),
            digest_bytes(result.ohash) == digest_of_seen(self.output_seen(), N as nat),
    {
        HashResult {
            ihash: match self.ihash {
                Some(acc) => Some(acc.finalize()),
                None => None,
            },
            ohash: match self.ohash {
                Some(acc) => Some(acc.finalize()),
                None => None,
            },
        }
    }
}

} // verus!
