//! P-384 key and signature containers and the placeholder ECDSA backends.
//!
//! These types only carry coordinates around; no curve arithmetic is done here.

use vstd::prelude::*;

use crate::output::{be_words, le_words, words_from_be_bytes, words_from_le_bytes, DigestOutput};

verus! {

/// Size in bytes of a P-384 scalar or coordinate.
pub const P384_SCALAR_SIZE: usize = 48;

/// Size in bytes of a raw P-384 point or signature (two scalars).
pub const P384_RAW_SIZE: usize = 96;

/// Errors that can occur during ECDSA operations.
#[derive(Copy, Clone, Debug, PartialEq, Eq, Structural)]
pub enum EcdsaError {
    /// Invalid key ID provided.
    InvalidKeyId,
    /// Key not found.
    KeyNotFound,
    /// Invalid parameters (length, format, or content).
    InvalidParameters,
    /// Signature verification failed.
    VerificationFailed,
    /// Cryptographic hardware not available.
    HardwareNotAvailable,
    /// Key is not suitable for the requested operation.
    InvalidKeyType,
    /// Internal error in cryptographic implementation.
    InternalError,
    /// The server restarted; earlier state is gone.
    ServerRestarted,
}

impl EcdsaError {
    /// The code of this error on the wire.
    pub open spec fn spec_code(self) -> u8 {
        match self {
            EcdsaError::InvalidKeyId => 1,
            EcdsaError::KeyNotFound => 2,
            EcdsaError::InvalidParameters => 3,
            EcdsaError::VerificationFailed => 4,
            EcdsaError::HardwareNotAvailable => 5,
            EcdsaError::InvalidKeyType => 6,
            EcdsaError::InternalError => 7,
            EcdsaError::ServerRestarted => 8,
        }
    }

    /// The code of this error on the wire.
    pub fn code(self) -> (c: u8)
        ensures
            c == self.spec_code(),
            1 <= c <= 8,
    {
        match self {
            EcdsaError::InvalidKeyId => 1,
            EcdsaError::KeyNotFound => 2,
            EcdsaError::InvalidParameters => 3,
            EcdsaError::VerificationFailed => 4,
            EcdsaError::HardwareNotAvailable => 5,
            EcdsaError::InvalidKeyType => 6,
            EcdsaError::InternalError => 7,
            EcdsaError::ServerRestarted => 8,
        }
    }

    /// The error that a wire code stands for, if any.
    pub fn from_code(code: u8) -> (e: Option<EcdsaError>)
        ensures
            match e {
                Some(err) => err.spec_code() == code,
                None => code == 0 || code > 8,
            },
    {
        match code {
            1 => Some(EcdsaError::InvalidKeyId),
            2 => Some(EcdsaError::KeyNotFound),
            3 => Some(EcdsaError::InvalidParameters),
            4 => Some(EcdsaError::VerificationFailed),
            5 => Some(EcdsaError::HardwareNotAvailable),
            6 => Some(EcdsaError::InvalidKeyType),
            7 => Some(EcdsaError::InternalError),
            8 => Some(EcdsaError::ServerRestarted),
            _ => None,
        }
    }
}

/// Broad classes of ECDSA failure that a backend error is reported under.
#[derive(Copy, Clone, Debug, PartialEq, Eq, Structural)]
pub enum EcdsaErrorKind {
    InvalidSignature,
    Busy,
    InvalidKeyFormat,
    InvalidPoint,
    WeakKey,
    Other,
}

/// Errors of the hardware ECDSA verifier.
#[derive(Copy, Clone, Debug, PartialEq, Eq, Structural)]
pub enum AspeedEcdsaError {
    InvalidSignature,
    Busy,
    BadInput,
    InvalidPoint,
    WeakKey,
    HardwareFailure,
}

impl AspeedEcdsaError {
    pub open spec fn spec_kind(self) -> EcdsaErrorKind {
        match self {
            AspeedEcdsaError::InvalidSignature => EcdsaErrorKind::InvalidSignature,
            AspeedEcdsaError::Busy => EcdsaErrorKind::Busy,
            AspeedEcdsaError::BadInput => EcdsaErrorKind::InvalidKeyFormat,
            AspeedEcdsaError::InvalidPoint => EcdsaErrorKind::InvalidPoint,
            AspeedEcdsaError::WeakKey => EcdsaErrorKind::WeakKey,
            AspeedEcdsaError::HardwareFailure => EcdsaErrorKind::Other,
        }
    }

    /// The class this error is reported under.
    pub fn kind(&self) -> (k: EcdsaErrorKind)
        ensures
            k == self.spec_kind(),
    {
        match self {
            AspeedEcdsaError::InvalidSignature => EcdsaErrorKind::InvalidSignature,
            AspeedEcdsaError::Busy => EcdsaErrorKind::Busy,
            AspeedEcdsaError::BadInput => EcdsaErrorKind::InvalidKeyFormat,
            AspeedEcdsaError::InvalidPoint => EcdsaErrorKind::InvalidPoint,
            AspeedEcdsaError::WeakKey => EcdsaErrorKind::WeakKey,
            AspeedEcdsaError::HardwareFailure => EcdsaErrorKind::Other,
        }
    }
}

/// How often the hardware verifier's status is looked at before the
/// verification is given up as `Busy`.
pub const VERIFY_RETRIES: u32 = 1000;

/// Status bit of the hardware verifier: the verification is over.
pub const STATUS_DONE: u32 = 0x10_0000;

/// Status bit of the hardware verifier: the signature is valid.
pub const STATUS_VALID: u32 = 0x20_0000;

/// What a status word of the hardware verifier tells: while bit 20 is
/// clear the verification is still running and there is no verdict; once
/// it is set, bit 21 tells whether the signature is valid.
pub open spec fn status_verdict(status: u32) -> Option<Result<(), AspeedEcdsaError>> {
    if status & STATUS_DONE == 0 {
        None
    } else if status & STATUS_VALID != 0 {
        Some(Ok(()))
    } else {
        Some(Err(AspeedEcdsaError::InvalidSignature))
    }
}

/// Reads the status of the hardware verifier.
pub fn verify_status(status: u32) -> (verdict: Option<Result<(), AspeedEcdsaError>>)
    ensures
        verdict == status_verdict(status),
        (status & STATUS_DONE != 0) == ((status / 0x10_0000) % 2 == 1),
        (status & STATUS_VALID != 0) == ((status / 0x20_0000) % 2 == 1),
{
    assert((status & 0x10_0000u32 != 0) == ((status / 0x10_0000u32) % 2 == 1)) by (bit_vector);
    assert((status & 0x20_0000u32 != 0) == ((status / 0x20_0000u32) % 2 == 1)) by (bit_vector);
    if status & STATUS_DONE != 0 {
        if status & STATUS_VALID != 0 {
            Some(Ok(()))
        } else {
            Some(Err(AspeedEcdsaError::InvalidSignature))
        }
    } else {
        None
    }
}

/// What the driver of the hardware verifier does after a look at the
/// status.
#[derive(Copy, Clone, Debug, PartialEq, Eq, Structural)]
pub enum VerifyPoll {
    /// The verification is over and the signature is valid.
    Valid,
    /// The verification is over and the signature is not valid.
    Invalid,
    /// The verification is still running: wait, and look again with one
    /// look less left.
    Retry { remaining: u32 },
    /// The verification is still running and no look is left: give up
    /// with `Busy`.
    GaveUp,
}

/// One step of waiting for the verifier: `status` is the status word just
/// read, `remaining` the number of looks that were left before it was
/// read. With no look left the status counts for nothing.
pub fn verify_poll(status: u32, remaining: u32) -> (step: VerifyPoll)
    ensures
        step == (if remaining == 0 {
            VerifyPoll::GaveUp
        } else {
            match status_verdict(status) {
                Some(Ok(_)) => VerifyPoll::Valid,
                Some(Err(_)) => VerifyPoll::Invalid,
                None => if remaining == 1 {
                    VerifyPoll::GaveUp
                } else {
                    VerifyPoll::Retry { remaining: (remaining - 1) as u32 }
                },
            }
        }),
{
    if remaining == 0 {
        return VerifyPoll::GaveUp;
    }
    match verify_status(status) {
        Some(Ok(_)) => VerifyPoll::Valid,
        Some(Err(_)) => VerifyPoll::Invalid,
        None => if remaining == 1 {
            VerifyPoll::GaveUp
        } else {
            VerifyPoll::Retry { remaining: remaining - 1 }
        },
    }
}

/// The outcome of a verification, from the status words read while waiting
/// for it, in order, of which at most `remaining` are looked at: the
/// verdict of the first word that has one, and `Busy` where none has.
pub open spec fn verification_outcome(statuses: Seq<u32>, remaining: nat) -> Result<
    (),
    AspeedEcdsaError,
>
    decreases statuses.len(),
{
    if remaining == 0 || statuses.len() == 0 {
        Err(AspeedEcdsaError::Busy)
    } else {
        match status_verdict(statuses[0]) {
            Some(verdict) => verdict,
            None => verification_outcome(statuses.drop_first(), (remaining - 1) as nat),
        }
    }
}

/// The hardware verifier's driver, without its hands: it reads the verdict
/// out of the status words that its caller read from the hardware.
pub struct AspeedEcdsa;

impl AspeedEcdsa {
    pub fn new() -> (verifier: Self) {
        AspeedEcdsa
    }

    /// The outcome of a verification that has been started, from the
    /// status words read while waiting for it. The first word with the
    /// done bit decides: the signature is valid, or `InvalidSignature`.
    /// After `VERIFY_RETRIES` words without it, or when the words run out,
    /// the outcome is `Busy`.
    pub fn verify(&mut self, statuses: &[u32]) -> (r: Result<(), AspeedEcdsaError>)
        ensures
            r == verification_outcome(statuses@, VERIFY_RETRIES as nat),
    {
        let mut remaining: u32 = VERIFY_RETRIES;
        let mut i: usize = 0;
        assert(statuses@.skip(0) =~= statuses@);
        while i < statuses.len()
            invariant
                i <= statuses@.len(),
                verification_outcome(statuses@, VERIFY_RETRIES as nat) == verification_outcome(
                    statuses@.skip(i as int),
                    remaining as nat,
                ),
            decreases statuses@.len() - i,
        {
            proof {
                assert(statuses@.skip(i as int).drop_first() =~= statuses@.skip(i + 1));
                assert(statuses@.skip(i as int)[0] == statuses@[i as int]);
            }
            match verify_poll(statuses[i], remaining) {
                VerifyPoll::Valid => {
                    return Ok(());
                },
                VerifyPoll::Invalid => {
                    return Err(AspeedEcdsaError::InvalidSignature);
                },
                VerifyPoll::GaveUp => {
                    proof {
                        if remaining == 1 {
                            assert(verification_outcome(statuses@.skip(i + 1), 0)
                                == Err::<(), AspeedEcdsaError>(AspeedEcdsaError::Busy));
                        }
                    }
                    return Err(AspeedEcdsaError::Busy);
                },
                VerifyPoll::Retry { remaining: left } => {
                    remaining = left;
                },
            }
            i += 1;
        }
        assert(statuses@.skip(i as int).len() == 0);
        Err(AspeedEcdsaError::Busy)
    }
}

/// A 48-byte scalar as the 12 words that are written to the verifier's
/// memory, each packing four bytes, the least significant first.
pub fn scalar_words(scalar: &[u8; 48]) -> (words: [u32; 12])
    ensures
        words@ == le_words(scalar@),
{
    words_from_le_bytes::<12>(scalar.as_slice())
}

/// Two 48-byte scalars, as a point's coordinates or a signature's components.
pub struct ScalarPair {
    pub first: Seq<u8>,
    pub second: Seq<u8>,
}

/// Copies `src` into `dst` starting at `offset`, leaving the rest of `dst` as it was.
fn copy_scalar(dst: &mut [u8; 96], offset: usize, src: &[u8; 48])
    requires
        offset + 48 <= 96,
    ensures
        forall|i: int| 0 <= i < 48 ==> final(dst)@[offset + i] == src@[i],
        forall|i: int| 0 <= i < 96 && !(offset <= i < offset + 48) ==> final(dst)@[i] == old(dst)@[i],
{
    let mut i: usize = 0;
    while i < 48
        invariant
            i <= 48,
            offset + 48 <= 96,
            forall|j: int| 0 <= j < i ==> dst@[offset + j] == src@[j],
            forall|j: int| 0 <= j < 96 && !(offset <= j < offset + i) ==> dst@[j] == old(dst)@[j],
        decreases 48 - i,
    {
        dst[offset + i] = src[i];
        i += 1;
    }
}

/// Reads the 48 bytes of `src` that start at `offset`.
fn read_scalar(src: &[u8], offset: usize) -> (out: [u8; 48])
    requires
        offset + 48 <= src.len(),
    ensures
        out@ == src@.subrange(offset as int, offset + 48),
{
    let mut out = [0u8; 48];
    let mut i: usize = 0;
    while i < 48
        invariant
            i <= 48,
            offset + 48 <= src.len(),
            forall|j: int| 0 <= j < i ==> out@[j] == src@[offset + j],
        decreases 48 - i,
    {
        out[i] = src[offset + i];
        i += 1;
    }
    assert(out@ =~= src@.subrange(offset as int, offset + 48));
    out
}

/// A serializable public key for the P-384 curve: the affine coordinates,
/// 48 bytes each.
#[derive(Clone, Debug)]
pub struct P384PublicKey {
    x: [u8; 48],
    y: [u8; 48],
}

impl View for P384PublicKey {
    type V = ScalarPair;

    closed spec fn view(&self) -> ScalarPair {
        ScalarPair { first: self.x@, second: self.y@ }
    }
}

impl P384PublicKey {
    /// Create a new P-384 public key from raw coordinates.
    pub fn new(x: [u8; 48], y: [u8; 48]) -> (key: Self)
        ensures
            key@.first == x@,
            key@.second == y@,
    {
        Self { x, y }
    }

    /// Create from raw coordinates (`x || y`, 96 bytes total). Any other
    /// length is refused with `InvalidParameters`.
    pub fn from_raw_coordinates(bytes: &[u8]) -> (r: Result<Self, EcdsaError>)
        ensures
            match r {
                Ok(key) => bytes@.len() == 96 && key@.first == bytes@.subrange(0, 48)
                    && key@.second == bytes@.subrange(48, 96),
                Err(e) => bytes@.len() != 96 && e == EcdsaError::InvalidParameters,
            },
    {
        if bytes.len() != 96 {
            return Err(EcdsaError::InvalidParameters);
        }
        let x = read_scalar(bytes, 0);
        let y = read_scalar(bytes, 48);
        Ok(Self::new(x, y))
    }

    /// Export to raw coordinates format (`x || y`).
    pub fn to_raw_coordinates(&self) -> (raw: [u8; 96])
        ensures
            raw@ == self@.first + self@.second,
    {
        let mut result = [0u8; 96];
        copy_scalar(&mut result, 0, &self.x);
        copy_scalar(&mut result, 48, &self.y);
        assert(result@ =~= self.x@ + self.y@);
        result
    }

    /// Get the X coordinate.
    pub fn x(&self) -> (x: &[u8; 48])
        ensures
            x@ == self@.first,
    {
        &self.x
    }

    /// Get the Y coordinate.
    pub fn y(&self) -> (y: &[u8; 48])
        ensures
            y@ == self@.second,
    {
        &self.y
    }

    /// Writes both coordinates into the buffers given.
    pub fn coordinates(&self, x_out: &mut [u8; 48], y_out: &mut [u8; 48])
        ensures
            final(x_out)@ == self@.first,
            final(y_out)@ == self@.second,
    {
        *x_out = self.x;
        *y_out = self.y;
    }
}

/// A serializable signature for the P-384 curve: the components `r` and `s`,
/// 48 bytes each.
#[derive(Clone, Debug)]
pub struct P384Signature {
    r: [u8; 48],
    s: [u8; 48],
}

impl View for P384Signature {
    type V = ScalarPair;

    closed spec fn view(&self) -> ScalarPair {
        ScalarPair { first: self.r@, second: self.s@ }
    }
}

impl P384Signature {
    /// Create a new P-384 signature from its `r` and `s` components. Any
    /// pair of scalars is accepted; no range check is made.
    pub fn new(r: [u8; 48], s: [u8; 48]) -> (sig: Self)
        ensures
            sig@.first == r@,
            sig@.second == s@,
    {
        Self { r, s }
    }

    /// Writes both components into the buffers given.
    pub fn coordinates(&self, r_out: &mut [u8; 48], s_out: &mut [u8; 48])
        ensures
            final(r_out)@ == self@.first,
            final(s_out)@ == self@.second,
    {
        *r_out = self.r;
        *s_out = self.s;
    }

    /// Export to raw format (`r || s`).
    pub fn to_raw(&self) -> (raw: [u8; 96])
        ensures
            raw@ == self@.first + self@.second,
    {
        let mut result = [0u8; 96];
        copy_scalar(&mut result, 0, &self.r);
        copy_scalar(&mut result, 48, &self.s);
        assert(result@ =~= self.r@ + self.s@);
        result
    }
}

/// `zeroize::Zeroize::zeroize` for an array of bytes: every byte is
/// overwritten with zero.
#[verifier::external_body]
fn zeroize_scalar(scalar: &mut [u8; 48])
    ensures
        forall|i: int| 0 <= i < 48 ==> final(scalar)@[i] == 0u8,
    opens_invariants none
    no_unwind
{
    zeroize::Zeroize::zeroize(scalar)
}

/// A P-384 private key: the secret scalar, 48 bytes.
pub struct P384PrivateKey {
    scalar: [u8; 48],
}

impl View for P384PrivateKey {
    type V = Seq<u8>;

    closed spec fn view(&self) -> Seq<u8> {
        self.scalar@
    }
}

impl P384PrivateKey {
    /// Create a new private key from scalar bytes.
    pub fn new(scalar: [u8; 48]) -> (key: Self)
        ensures
            key@ == scalar@,
    {
        Self { scalar }
    }

    /// The scalar.
    pub fn scalar(&self) -> (scalar: &[u8; 48])
        ensures
            scalar@ == self@,
    {
        &self.scalar
    }

    /// Overwrites the scalar with zeros.
    pub fn zeroize(&mut self)
        ensures
            final(self)@ == Seq::new(48, |i: int| 0u8),
    {
        zeroize_scalar(&mut self.scalar);
        assert(self.scalar@ =~= Seq::new(48, |i: int| 0u8));
    }

    /// Every 48-byte value is accepted as a key.
    pub fn validate(&self) -> (r: Result<(), EcdsaErrorKind>)
        ensures
            r is Ok,
    {
        Ok(())
    }
}

impl Drop for P384PrivateKey {
    /// The scalar is overwritten with zeros when the key goes away.
    fn drop(&mut self)
        opens_invariants none
        no_unwind
    {
        zeroize_scalar(&mut self.scalar);
    }
}

/// A verifier that accepts every signature. It stands in where no
/// cryptographic backend is present.
pub struct PlaceholderVerifier;

impl PlaceholderVerifier {
    /// Always reports success, whatever the key, digest and signature.
    pub fn verify(
        &mut self,
        _public_key: &P384PublicKey,
        _digest: DigestOutput<12>,
        _signature: &P384Signature,
    ) -> (r: Result<(), EcdsaError>)
        ensures
            r is Ok,
    {
        Ok(())
    }
}

/// The `r` component of the placeholder signature: 48 zero bytes.
pub open spec fn placeholder_r() -> Seq<u8> {
    Seq::new(48, |i: int| 0u8)
}

/// The `s` component of the placeholder signature: 47 bytes of value 1, then 42.
pub open spec fn placeholder_s() -> Seq<u8> {
    Seq::new(48, |i: int| if i == 47 { 42u8 } else { 1u8 })
}

/// A signer that returns one fixed signature. It stands in where no
/// cryptographic backend is present.
pub struct PlaceholderSigner;

impl PlaceholderSigner {
    /// Returns the placeholder signature, whatever the key and digest.
    pub fn sign<R>(
        &mut self,
        _private_key: &P384PrivateKey,
        _digest: DigestOutput<12>,
        _rng: &mut R,
    ) -> (r: Result<P384Signature, EcdsaError>)
        ensures
            r matches Ok(sig) && sig@.first == placeholder_r() && sig@.second == placeholder_s(),
    {
        let placeholder_r = [0u8; 48];
        let mut placeholder_s = [1u8; 48];
        placeholder_s[47] = 42;
        assert(placeholder_r@ =~= self::placeholder_r());
        assert(placeholder_s@ =~= self::placeholder_s());
        Ok(P384Signature::new(placeholder_r, placeholder_s))
    }
}

/// A 48-byte hash as the digest the curve works with: 12 words, each
/// packing four bytes, the most significant first.
pub fn digest_from_hash(hash: &[u8; 48]) -> (digest: DigestOutput<12>)
    ensures
        digest.value@ == be_words(hash@),
{
    DigestOutput::new(words_from_be_bytes::<12>(hash.as_slice()))
}

/// The ECDSA server: it verifies, and signs where it was given a signer.
pub enum EcdsaServer<S, V> {
    /// Verification-only server (no signing capabilities).
    VerifierOnly { verifier: V },
    /// Full server with both signing and verification capabilities.
    SignerVerifier { signer: S, verifier: V },
}

impl<S, V> EcdsaServer<S, V> {
    /// Create a server with both signing and verification capabilities.
    pub fn new_with_signing(signer: S, verifier: V) -> (server: Self)
        ensures
            server == (EcdsaServer::SignerVerifier { signer, verifier }),
    {
        EcdsaServer::SignerVerifier { signer, verifier }
    }

    /// Create a verification-only server (no signing capabilities).
    pub fn new_verification_only(verifier: V) -> (server: Self)
        ensures
            server == (EcdsaServer::<S, V>::VerifierOnly { verifier }),
    {
        EcdsaServer::VerifierOnly { verifier }
    }

    /// Whether this server holds a signer.
    pub open spec fn can_sign(&self) -> bool {
        self is SignerVerifier
    }

    /// What a signing request is answered with. No signature is produced
    /// yet: a server without a signer reports `HardwareNotAvailable`, a
    /// hash that is not 48 bytes long is refused with `InvalidParameters`,
    /// and anything else ends in `InternalError`.
    pub fn ecdsa384_sign(&mut self, _key_id: u32, hash: &[u8]) -> (r: Result<[u8; 96], EcdsaError>)
        ensures
            *final(self) == *old(self),
            r == Err::<[u8; 96], EcdsaError>(
                if !old(self).can_sign() {
                    EcdsaError::HardwareNotAvailable
                } else if hash@.len() != 48 {
                    EcdsaError::InvalidParameters
                } else {
                    EcdsaError::InternalError
                },
            ),
    {
        match self {
            EcdsaServer::VerifierOnly { .. } => Err(EcdsaError::HardwareNotAvailable),
            EcdsaServer::SignerVerifier { .. } => {
                if hash.len() != 48 {
                    return Err(EcdsaError::InvalidParameters);
                }
                Err(EcdsaError::InternalError)
            },
        }
    }

    /// What a verification request is answered with. No signature is
    /// checked yet: a hash that is not 48 bytes long, and a signature or a
    /// public key that is not 96 bytes long, are refused with
    /// `InvalidParameters`, and anything else ends in
    /// `HardwareNotAvailable`.
    pub fn ecdsa384_verify(&mut self, hash: &[u8], signature: &[u8], public_key: &[u8]) -> (r: Result<
        bool,
        EcdsaError,
    >)
        ensures
            *final(self) == *old(self),
            r == Err::<bool, EcdsaError>(
                if hash@.len() != 48 || signature@.len() != 96 || public_key@.len() != 96 {
                    EcdsaError::InvalidParameters
                } else {
                    EcdsaError::HardwareNotAvailable
                },
            ),
    {
        if hash.len() != 48 {
            return Err(EcdsaError::InvalidParameters);
        }
        if signature.len() != 96 {
            return Err(EcdsaError::InvalidParameters);
        }
        if public_key.len() != 96 {
            return Err(EcdsaError::InvalidParameters);
        }
        Err(EcdsaError::HardwareNotAvailable)
    }
}

} // verus!
