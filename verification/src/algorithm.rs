//! The algorithms of the service, with their output widths and key limits.

use vstd::prelude::*;

verus! {

/// Digest output sizes in 32-bit words.
pub const SHA256_WORDS: usize = 8;

pub const SHA384_WORDS: usize = 12;

pub const SHA512_WORDS: usize = 16;

/// HMAC key size limits in bytes: the block size of the underlying hash.
pub const HMAC_SHA256_MAX_KEY_SIZE: usize = 64;

pub const HMAC_SHA384_MAX_KEY_SIZE: usize = 128;

pub const HMAC_SHA512_MAX_KEY_SIZE: usize = 128;

/// Maximum data size for a single operation, in bytes.
pub const MAX_DATA_SIZE: usize = 1024;

/// Maximum number of sessions that can be live at once.
pub const MAX_SESSIONS: usize = 16;

/// The algorithm a session is bound to when it is created.
#[derive(Copy, Clone, Debug, PartialEq, Eq, Structural)]
pub enum DigestAlgorithm {
    Sha256,
    Sha384,
    Sha512,
    HmacSha256,
    HmacSha384,
    HmacSha512,
}

impl DigestAlgorithm {
    pub open spec fn spec_is_hmac(&self) -> bool {
        matches!(self, DigestAlgorithm::HmacSha256 | DigestAlgorithm::HmacSha384 | DigestAlgorithm::HmacSha512)
    }

    /// Returns true if this algorithm is an HMAC variant.
    #[verifier::when_used_as_spec(spec_is_hmac)]
    pub fn is_hmac(&self) -> (b: bool)
        ensures
            b == self.spec_is_hmac(),
    {
        matches!(self, DigestAlgorithm::HmacSha256 | DigestAlgorithm::HmacSha384 | DigestAlgorithm::HmacSha512)
    }

    pub open spec fn spec_underlying_hash(&self) -> Option<DigestAlgorithm> {
        match self {
            DigestAlgorithm::HmacSha256 => Some(DigestAlgorithm::Sha256),
            DigestAlgorithm::HmacSha384 => Some(DigestAlgorithm::Sha384),
            DigestAlgorithm::HmacSha512 => Some(DigestAlgorithm::Sha512),
            _ => None,
        }
    }

    /// Returns the underlying hash algorithm for HMAC variants.
    #[verifier::when_used_as_spec(spec_underlying_hash)]
    pub fn underlying_hash(&self) -> (h: Option<DigestAlgorithm>)
        ensures
            h == self.spec_underlying_hash(),
    {
        match self {
            DigestAlgorithm::HmacSha256 => Some(DigestAlgorithm::Sha256),
            DigestAlgorithm::HmacSha384 => Some(DigestAlgorithm::Sha384),
            DigestAlgorithm::HmacSha512 => Some(DigestAlgorithm::Sha512),
            _ => None,
        }
    }

    pub open spec fn spec_max_key_size(&self) -> Option<usize> {
        match self {
            DigestAlgorithm::HmacSha256 => Some(HMAC_SHA256_MAX_KEY_SIZE),
            DigestAlgorithm::HmacSha384 => Some(HMAC_SHA384_MAX_KEY_SIZE),
            DigestAlgorithm::HmacSha512 => Some(HMAC_SHA512_MAX_KEY_SIZE),
            _ => None,
        }
    }

    /// Returns the maximum key size for HMAC algorithms, in bytes.
    #[verifier::when_used_as_spec(spec_max_key_size)]
    pub fn max_key_size(&self) -> (m: Option<usize>)
        ensures
            m == self.spec_max_key_size(),
    {
        match self {
            DigestAlgorithm::HmacSha256 => Some(HMAC_SHA256_MAX_KEY_SIZE),
            DigestAlgorithm::HmacSha384 => Some(HMAC_SHA384_MAX_KEY_SIZE),
            DigestAlgorithm::HmacSha512 => Some(HMAC_SHA512_MAX_KEY_SIZE),
            _ => None,
        }
    }

    pub open spec fn spec_output_words(&self) -> usize {
        match self {
            DigestAlgorithm::Sha256 | DigestAlgorithm::HmacSha256 => SHA256_WORDS,
            DigestAlgorithm::Sha384 | DigestAlgorithm::HmacSha384 => SHA384_WORDS,
            DigestAlgorithm::Sha512 | DigestAlgorithm::HmacSha512 => SHA512_WORDS,
        }
    }

    /// Returns the output size in 32-bit words.
    #[verifier::when_used_as_spec(spec_output_words)]
    pub fn output_words(&self) -> (w: usize)
        ensures
            w == self.spec_output_words(),
    {
        match self {
            DigestAlgorithm::Sha256 | DigestAlgorithm::HmacSha256 => SHA256_WORDS,
            DigestAlgorithm::Sha384 | DigestAlgorithm::HmacSha384 => SHA384_WORDS,
            DigestAlgorithm::Sha512 | DigestAlgorithm::HmacSha512 => SHA512_WORDS,
        }
    }

    pub open spec fn spec_output_bytes(&self) -> usize {
        (4 * self.spec_output_words()) as usize
    }

    /// Returns the output size in bytes: four times the size in words.
    #[verifier::when_used_as_spec(spec_output_bytes)]
    pub fn output_bytes(&self) -> (n: usize)
        ensures
            n == self.spec_output_bytes(),
            n == 4 * self.spec_output_words(),
    {
        4 * self.output_words()
    }

    /// Whether a key of `len` bytes may start a session of this algorithm:
    /// any length for a plain digest, which takes no key, and at most the
    /// block size of the underlying hash for an HMAC.
    pub open spec fn key_len_ok(&self, len: nat) -> bool {
        match self.spec_max_key_size() {
            Some(max) => len <= max,
            None => true,
        }
    }

    /// Whether a key of `len` bytes may start a session of this algorithm.
    pub fn accepts_key_len(&self, len: usize) -> (ok: bool)
        ensures
            ok == self.key_len_ok(len as nat),
    {
        match self.max_key_size() {
            Some(max) => len <= max,
            None => true,
        }
    }
}

} // verus!
