//! The errors that resolving a process request can end in.

use vstd::prelude::*;
use crate::digest::Digest;

verus! {

/// Which digest reference of a protocol message was absent or malformed.
#[derive(Clone, Copy, Debug, PartialEq, Eq, Structural)]
pub enum DigestRef {
    Command,
    InputRoot,
    Action,
}

/// Why a process request could not be resolved.
#[derive(Debug)]
pub enum ResolveError {
    /// None, or more than one, of the three input shapes was given.
    AmbiguousInput,
    /// A declared output path or working directory is absolute or escapes
    /// the sandbox root.
    InvalidPath { path: String },
    /// A fingerprint is not 64 hexadecimal digits.
    InvalidFingerprint { text: String },
    /// The store does not hold the blob or directory.
    StoreMiss { digest: Digest },
    /// The store failed while loading the blob or directory.
    StoreFailure { digest: Digest, message: String },
    /// The blob is present but is not the expected protocol message.
    Decode { digest: Digest },
    /// A message lacks a digest it must carry, or carries a malformed one.
    BadDigest { reference: DigestRef },
    /// An action's timeout is negative or its nanoseconds out of range.
    InvalidTimeout { action: Digest },
    /// A result URL is too short, has an unknown kind or a bad length.
    MalformedUrl { url: String },
}

} // verus!
