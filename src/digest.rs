//! Content digests: a 256-bit fingerprint and a length, and the hex form
//! in which fingerprints are written.

use vstd::prelude::*;
use vstd::string::{StrSliceExecFns, StringSliceAdditionalSpecFns};

verus! {

/// Number of bytes in a content fingerprint.
pub const FINGERPRINT_SIZE: usize = 32;

/// The value of an ASCII hexadecimal digit, either case.
pub open spec fn hex_digit_value(c: u8) -> Option<nat> {
    if 48 <= c <= 57 {
        Some((c - 48) as nat)
    } else if 97 <= c <= 102 {
        Some((c - 87) as nat)
    } else if 65 <= c <= 70 {
        Some((c - 55) as nat)
    } else {
        None
    }
}

/// A text is a fingerprint's hex form: 64 hexadecimal digits.
pub open spec fn is_fingerprint_hex(s: Seq<u8>) -> bool {
    &&& s.len() == 2 * FINGERPRINT_SIZE
    &&& forall|i: int| 0 <= i < s.len() ==> (#[trigger] hex_digit_value(s[i])) is Some
}

/// The byte spelled by the two digits at `2 * i` and `2 * i + 1`.
pub open spec fn hex_pair(s: Seq<u8>, i: int) -> u8 {
    (hex_digit_value(s[2 * i])->0 * 16 + hex_digit_value(s[2 * i + 1])->0) as u8
}

/// The fingerprint bytes spelled by a hex text, if it is one.
pub open spec fn fingerprint_of_hex(s: Seq<u8>) -> Option<Seq<u8>> {
    if is_fingerprint_hex(s) {
        Some(Seq::new(FINGERPRINT_SIZE as nat, |i: int| hex_pair(s, i)))
    } else {
        None
    }
}

/// A 256-bit content hash.
#[derive(Clone, Copy, Debug)]
pub struct Fingerprint(pub [u8; 32]);

/// A content fingerprint together with the length of the content.
#[derive(Clone, Copy, Debug)]
pub struct Digest {
    pub hash: Fingerprint,
    pub size_bytes: usize,
}

impl View for Fingerprint {
    type V = Seq<u8>;

    open spec fn view(&self) -> Seq<u8> {
        self.0@
    }
}

fn hex_digit(c: u8) -> (r: Option<u8>)
    ensures
        match hex_digit_value(c) {
            Some(v) => r == Some(v as u8),
            None => r is None,
        },
{
    if 48 <= c && c <= 57 {
        Some(c - 48)
    } else if 97 <= c && c <= 102 {
        Some(c - 87)
    } else if 65 <= c && c <= 70 {
        Some(c - 55)
    } else {
        None
    }
}

impl Fingerprint {
    /// Parses the hex form of a fingerprint given as bytes.
    pub fn from_hex_bytes(s: &[u8]) -> (r: Option<Fingerprint>)
        ensures
            match fingerprint_of_hex(s@) {
                Some(b) => r is Some && r->0@ == b,
                None => r is None,
            },
    {
        if s.len() != 2 * FINGERPRINT_SIZE {
            return None;
        }
        let mut bytes: [u8; 32] = [0u8; 32];
        let mut i: usize = 0;
        while i < FINGERPRINT_SIZE
            invariant
                s@.len() == 2 * FINGERPRINT_SIZE,
                i <= FINGERPRINT_SIZE,
                bytes@.len() == FINGERPRINT_SIZE,
                forall|k: int| 0 <= k < 2 * i ==> (#[trigger] hex_digit_value(s@[k])) is Some,
                forall|k: int| 0 <= k < i ==> bytes@[k] == hex_pair(s@, k),
            decreases FINGERPRINT_SIZE - i,
        {
            let hi = hex_digit(s[2 * i]);
            let lo = hex_digit(s[2 * i + 1]);
            match (hi, lo) {
                (Some(h), Some(l)) => {
                    bytes[i] = h * 16 + l;
                },
                _ => {
                    return None;
                },
            }
            i = i + 1;
        }
        let r = Fingerprint(bytes);
        assert(r@ =~= fingerprint_of_hex(s@)->0);
        Some(r)
    }

    /// Parses the hex form of a fingerprint, in either case.
    pub fn from_hex_string(s: &str) -> (r: Option<Fingerprint>)
        ensures
            match fingerprint_of_hex(s.spec_bytes()) {
                Some(b) => r is Some && r->0@ == b,
                None => r is None,
            },
    {
        let b = s.as_bytes_vec();
        Fingerprint::from_hex_bytes(b.as_slice())
    }
}

impl Digest {
    pub fn new(hash: Fingerprint, size_bytes: usize) -> (r: Digest)
        ensures
            r.hash == hash,
            r.size_bytes == size_bytes,
    {
        Digest { hash, size_bytes }
    }
}

} // verus!

verus! {

impl View for Digest {
    type V = (Seq<u8>, usize);

    open spec fn view(&self) -> (Seq<u8>, usize) {
        (self.hash@, self.size_bytes)
    }
}

} // verus!
